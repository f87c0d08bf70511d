//! The process orchestrator: the staged startup of a browser session as a
//! state machine.
//!
//! Three auxiliary processes are started in dependency order — virtual
//! display server, remote-frame server, automation driver — around profile
//! provisioning, a fixed settle delay, and the control connection. The
//! caller performs each outside act (spawn, resolve, connect, write) and
//! reports back; the machine fixes the order, records the identifiers, and
//! produces the registry bytes to persist only after every process is
//! confirmed started.

use crate::errors::SessionError;
use crate::registry::{registry_text, render_registry, ProcessRegistry};
use vstd::prelude::*;

verus! {

/// The startup stages, in the order they run. `Failed` is terminal: any
/// stage failing aborts the whole sequence.
#[derive(Clone, Copy, Debug, PartialEq, Eq, Structural)]
pub enum OrchestratorPhase {
    /// Start the virtual display server; everything later depends on it.
    StartDisplay,
    /// Start the remote-frame server on the same display, for an operator.
    StartFrame,
    /// Provision the ephemeral profile directory.
    Provision,
    /// Resolve the automation driver executable on the search path.
    ResolveDriver,
    /// Start the automation driver on the display and control port.
    StartDriver,
    /// Wait the fixed settle interval for the driver to come up.
    Settle,
    /// Open the control connection to the driver's endpoint.
    Connect,
    /// Persist the three recorded identifiers to the registry.
    PersistRegistry,
    /// The session is up and recorded.
    Ready,
    /// A stage failed; the sequence is abandoned.
    Failed,
}

/// The position of a phase in the startup order.
pub open spec fn phase_index(p: OrchestratorPhase) -> int {
    match p {
        OrchestratorPhase::StartDisplay => 0,
        OrchestratorPhase::StartFrame => 1,
        OrchestratorPhase::Provision => 2,
        OrchestratorPhase::ResolveDriver => 3,
        OrchestratorPhase::StartDriver => 4,
        OrchestratorPhase::Settle => 5,
        OrchestratorPhase::Connect => 6,
        OrchestratorPhase::PersistRegistry => 7,
        OrchestratorPhase::Ready => 8,
        OrchestratorPhase::Failed => 9,
    }
}

/// The orchestrator: the current stage and the process identifiers recorded
/// so far.
pub struct Orchestrator {
    pub phase: OrchestratorPhase,
    pub display_pid: Option<u32>,
    pub frame_pid: Option<u32>,
    pub driver_pid: Option<u32>,
}

impl Orchestrator {
    /// Every stage holds the identifiers of the processes started before it.
    pub open spec fn wf(self) -> bool {
        &&& (self.phase != OrchestratorPhase::Failed && phase_index(self.phase) >= 1
            ==> self.display_pid is Some)
        &&& (self.phase != OrchestratorPhase::Failed && phase_index(self.phase) >= 2
            ==> self.frame_pid is Some)
        &&& (self.phase != OrchestratorPhase::Failed && phase_index(self.phase) >= 5
            ==> self.driver_pid is Some)
    }

    /// A fresh orchestrator: nothing started, nothing recorded.
    pub fn new() -> (s: Self)
        ensures
            s.phase == OrchestratorPhase::StartDisplay,
            s.display_pid is None,
            s.frame_pid is None,
            s.driver_pid is None,
            s.wf(),
    {
        Orchestrator {
            phase: OrchestratorPhase::StartDisplay,
            display_pid: None,
            frame_pid: None,
            driver_pid: None,
        }
    }

    /// The display server started: record it, move to the frame server.
    pub fn record_display_started(self, pid: u32) -> (s: Self)
        requires
            self.phase == OrchestratorPhase::StartDisplay,
            self.wf(),
        ensures
            s.phase == OrchestratorPhase::StartFrame,
            s.display_pid == Some(pid),
            s.frame_pid == self.frame_pid,
            s.driver_pid == self.driver_pid,
            s.wf(),
    {
        Orchestrator { phase: OrchestratorPhase::StartFrame, display_pid: Some(pid), ..self }
    }

    /// The frame server started: record it, move to provisioning.
    pub fn record_frame_started(self, pid: u32) -> (s: Self)
        requires
            self.phase == OrchestratorPhase::StartFrame,
            self.wf(),
        ensures
            s.phase == OrchestratorPhase::Provision,
            s.frame_pid == Some(pid),
            s.display_pid == self.display_pid,
            s.driver_pid == self.driver_pid,
            s.wf(),
    {
        Orchestrator { phase: OrchestratorPhase::Provision, frame_pid: Some(pid), ..self }
    }

    /// The profile directory is provisioned: move to resolving the driver.
    pub fn on_provisioned(self) -> (s: Self)
        requires
            self.phase == OrchestratorPhase::Provision,
            self.wf(),
        ensures
            s.phase == OrchestratorPhase::ResolveDriver,
            s.display_pid == self.display_pid,
            s.frame_pid == self.frame_pid,
            s.driver_pid == self.driver_pid,
            s.wf(),
    {
        Orchestrator { phase: OrchestratorPhase::ResolveDriver, ..self }
    }

    /// The driver executable was found on the search path: start it.
    pub fn on_driver_resolved(self) -> (s: Self)
        requires
            self.phase == OrchestratorPhase::ResolveDriver,
            self.wf(),
        ensures
            s.phase == OrchestratorPhase::StartDriver,
            s.display_pid == self.display_pid,
            s.frame_pid == self.frame_pid,
            s.driver_pid == self.driver_pid,
            s.wf(),
    {
        Orchestrator { phase: OrchestratorPhase::StartDriver, ..self }
    }

    /// The automation driver started: record it, wait for it to settle.
    pub fn record_driver_started(self, pid: u32) -> (s: Self)
        requires
            self.phase == OrchestratorPhase::StartDriver,
            self.wf(),
        ensures
            s.phase == OrchestratorPhase::Settle,
            s.driver_pid == Some(pid),
            s.display_pid == self.display_pid,
            s.frame_pid == self.frame_pid,
            s.wf(),
    {
        Orchestrator { phase: OrchestratorPhase::Settle, driver_pid: Some(pid), ..self }
    }

    /// The settle interval elapsed: connect to the driver.
    pub fn on_settled(self) -> (s: Self)
        requires
            self.phase == OrchestratorPhase::Settle,
            self.wf(),
        ensures
            s.phase == OrchestratorPhase::Connect,
            s.display_pid == self.display_pid,
            s.frame_pid == self.frame_pid,
            s.driver_pid == self.driver_pid,
            s.wf(),
    {
        Orchestrator { phase: OrchestratorPhase::Connect, ..self }
    }

    /// The control connection is open: persist the registry next.
    pub fn on_connected(self) -> (s: Self)
        requires
            self.phase == OrchestratorPhase::Connect,
            self.wf(),
        ensures
            s.phase == OrchestratorPhase::PersistRegistry,
            s.display_pid == self.display_pid,
            s.frame_pid == self.frame_pid,
            s.driver_pid == self.driver_pid,
            s.wf(),
    {
        Orchestrator { phase: OrchestratorPhase::PersistRegistry, ..self }
    }

    /// The registry the machine persists: the three recorded identifiers in
    /// the fixed order automation driver, display server, frame server.
    pub open spec fn recorded_registry(self) -> ProcessRegistry
        recommends
            self.driver_pid is Some,
            self.display_pid is Some,
            self.frame_pid is Some,
    {
        ProcessRegistry {
            driver: self.driver_pid->0,
            display: self.display_pid->0,
            frame: self.frame_pid->0,
        }
    }

    /// The bytes to write to the registry file. Only available once every
    /// process is confirmed started and the connection is open.
    pub fn registry_content(&self) -> (r: Vec<u8>)
        requires
            self.phase == OrchestratorPhase::PersistRegistry,
            self.wf(),
        ensures
            r@ == registry_text(self.recorded_registry()),
    {
        match (self.driver_pid, self.display_pid, self.frame_pid) {
            (Some(driver), Some(display), Some(frame)) => {
                let reg = ProcessRegistry { driver, display, frame };
                render_registry(&reg)
            },
            _ => vstd::pervasive::unreached(),
        }
    }

    /// The registry is persisted: the session is ready.
    pub fn on_persisted(self) -> (s: Self)
        requires
            self.phase == OrchestratorPhase::PersistRegistry,
            self.wf(),
        ensures
            s.phase == OrchestratorPhase::Ready,
            s.display_pid == self.display_pid,
            s.frame_pid == self.frame_pid,
            s.driver_pid == self.driver_pid,
            s.wf(),
    {
        Orchestrator { phase: OrchestratorPhase::Ready, ..self }
    }

    /// The current stage failed: abandon the sequence, keeping what was
    /// recorded (already-started processes are not rolled back).
    pub fn fail(self) -> (s: Self)
        ensures
            s.phase == OrchestratorPhase::Failed,
            s.display_pid == self.display_pid,
            s.frame_pid == self.frame_pid,
            s.driver_pid == self.driver_pid,
            s.wf(),
    {
        Orchestrator { phase: OrchestratorPhase::Failed, ..self }
    }
}

/// The error a failing stage surfaces: spawn stages fail as
/// `ProcessSpawnFailed`, resolution as `DependencyNotFound`, the control
/// connection as `ConnectionFailed`.
pub fn step_failure_error(p: OrchestratorPhase) -> (e: SessionError)
    requires
        p == OrchestratorPhase::StartDisplay || p == OrchestratorPhase::StartFrame || p
            == OrchestratorPhase::StartDriver || p == OrchestratorPhase::ResolveDriver || p
            == OrchestratorPhase::Connect,
    ensures
        p == OrchestratorPhase::StartDisplay || p == OrchestratorPhase::StartFrame || p
            == OrchestratorPhase::StartDriver ==> e == SessionError::ProcessSpawnFailed,
        p == OrchestratorPhase::ResolveDriver ==> e == SessionError::DependencyNotFound,
        p == OrchestratorPhase::Connect ==> e == SessionError::ConnectionFailed,
{
    match p {
        OrchestratorPhase::ResolveDriver => SessionError::DependencyNotFound,
        OrchestratorPhase::Connect => SessionError::ConnectionFailed,
        _ => SessionError::ProcessSpawnFailed,
    }
}

/// A command to spawn, with output suppressed: the program, its arguments,
/// and whether the display variable must point at the virtual display.
pub struct SpawnSpec {
    pub program: &'static str,
    pub args: Vec<&'static str>,
    pub set_display_env: bool,
}

/// The display identifier every process shares.
pub fn display_env() -> (r: &'static str)
    ensures
        r@ == ":99"@,
{
    ":99"
}

/// The virtual display server command.
pub fn display_command() -> (c: SpawnSpec)
    ensures
        c.program@ == "Xvfb"@,
        c.args@.len() == 4,
        c.args@[0]@ == ":99"@,
        c.args@[1]@ == "-screen"@,
        c.args@[2]@ == "0"@,
        c.args@[3]@ == "1280x1024x24"@,
        !c.set_display_env,
{
    let mut args: Vec<&'static str> = Vec::new();
    args.push(":99");
    args.push("-screen");
    args.push("0");
    args.push("1280x1024x24");
    SpawnSpec { program: "Xvfb", args, set_display_env: false }
}

/// The remote-frame server command: attached to the same display, no
/// password, kept alive for an operator to watch and intervene.
pub fn frame_command() -> (c: SpawnSpec)
    ensures
        c.program@ == "x11vnc"@,
        c.args@.len() == 4,
        c.args@[0]@ == "-display"@,
        c.args@[1]@ == ":99"@,
        c.args@[2]@ == "-nopw"@,
        c.args@[3]@ == "-forever"@,
        !c.set_display_env,
{
    let mut args: Vec<&'static str> = Vec::new();
    args.push("-display");
    args.push(":99");
    args.push("-nopw");
    args.push("-forever");
    SpawnSpec { program: "x11vnc", args, set_display_env: false }
}

/// The automation driver command: the resolved executable is spawned with
/// these arguments, bound to the virtual display.
pub fn driver_command() -> (c: SpawnSpec)
    ensures
        c.program@ == "geckodriver"@,
        c.args@.len() == 2,
        c.args@[0]@ == "--port"@,
        c.args@[1]@ == "4444"@,
        c.set_display_env,
{
    let mut args: Vec<&'static str> = Vec::new();
    args.push("--port");
    args.push("4444");
    SpawnSpec { program: "geckodriver", args, set_display_env: true }
}

/// The driver's control endpoint.
pub fn driver_endpoint() -> (r: &'static str)
    ensures
        r@ == "http://localhost:4444"@,
{
    "http://localhost:4444"
}

/// The fixed settle interval, in seconds, granted to the driver and to
/// freshly loaded pages.
pub fn settle_seconds() -> (r: u64)
    ensures
        r == 2,
{
    2
}

} // verus!
