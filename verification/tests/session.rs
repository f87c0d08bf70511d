use ebay_bot::cli::Commands;
use ebay_bot::errors::SessionError;
use ebay_bot::orchestrator::{
    display_command, display_env, driver_command, driver_endpoint, frame_command, settle_seconds,
    step_failure_error, Orchestrator, OrchestratorPhase,
};
use ebay_bot::signin::{
    continue_selector, element_missing_error, email_selector, signin_url, SigninFlow, SigninPhase,
};

#[test]
fn startup_runs_in_dependency_order_and_records_the_registry() {
    let o = Orchestrator::new();
    assert_eq!(o.phase, OrchestratorPhase::StartDisplay);

    let o = o.record_display_started(11);
    assert_eq!(o.phase, OrchestratorPhase::StartFrame);
    let o = o.record_frame_started(22);
    assert_eq!(o.phase, OrchestratorPhase::Provision);
    let o = o.on_provisioned();
    assert_eq!(o.phase, OrchestratorPhase::ResolveDriver);
    let o = o.on_driver_resolved();
    assert_eq!(o.phase, OrchestratorPhase::StartDriver);
    let o = o.record_driver_started(33);
    assert_eq!(o.phase, OrchestratorPhase::Settle);
    let o = o.on_settled();
    assert_eq!(o.phase, OrchestratorPhase::Connect);
    let o = o.on_connected();
    assert_eq!(o.phase, OrchestratorPhase::PersistRegistry);

    // Written only after every process is confirmed started, in the fixed
    // order: driver, display server, frame server.
    assert_eq!(o.registry_content(), b"33\n11\n22\n".to_vec());

    let o = o.on_persisted();
    assert_eq!(o.phase, OrchestratorPhase::Ready);
    assert_eq!(o.display_pid, Some(11));
    assert_eq!(o.frame_pid, Some(22));
    assert_eq!(o.driver_pid, Some(33));
}

#[test]
fn a_failed_stage_abandons_the_sequence_but_keeps_records() {
    let o = Orchestrator::new().record_display_started(7);
    let o = o.fail();
    assert_eq!(o.phase, OrchestratorPhase::Failed);
    assert_eq!(o.display_pid, Some(7));
}

#[test]
fn stage_failures_surface_the_right_errors() {
    assert_eq!(
        step_failure_error(OrchestratorPhase::StartDisplay),
        SessionError::ProcessSpawnFailed
    );
    assert_eq!(
        step_failure_error(OrchestratorPhase::StartFrame),
        SessionError::ProcessSpawnFailed
    );
    assert_eq!(
        step_failure_error(OrchestratorPhase::StartDriver),
        SessionError::ProcessSpawnFailed
    );
    assert_eq!(
        step_failure_error(OrchestratorPhase::ResolveDriver),
        SessionError::DependencyNotFound
    );
    assert_eq!(
        step_failure_error(OrchestratorPhase::Connect),
        SessionError::ConnectionFailed
    );
}

#[test]
fn spawn_commands_are_fixed() {
    assert_eq!(display_env(), ":99");

    let c = display_command();
    assert_eq!(c.program, "Xvfb");
    assert_eq!(c.args, vec![":99", "-screen", "0", "1280x1024x24"]);
    assert!(!c.set_display_env);

    let c = frame_command();
    assert_eq!(c.program, "x11vnc");
    assert_eq!(c.args, vec!["-display", ":99", "-nopw", "-forever"]);
    assert!(!c.set_display_env);

    let c = driver_command();
    assert_eq!(c.program, "geckodriver");
    assert_eq!(c.args, vec!["--port", "4444"]);
    assert!(c.set_display_env);

    assert_eq!(driver_endpoint(), "http://localhost:4444");
    assert_eq!(settle_seconds(), 2);
}

#[test]
fn signin_flow_runs_its_fixed_sequence() {
    let f = SigninFlow::new();
    assert_eq!(f.phase, SigninPhase::Navigate);
    let f = f.advance();
    assert_eq!(f.phase, SigninPhase::Settle);
    let f = f.advance();
    assert_eq!(f.phase, SigninPhase::Monitor);
    let f = f.advance();
    assert_eq!(f.phase, SigninPhase::AwaitEmailField);
    let f = f.advance();
    assert_eq!(f.phase, SigninPhase::EnterEmail);
    let f = f.advance();
    assert_eq!(f.phase, SigninPhase::FindContinue);
    let f = f.advance();
    assert_eq!(f.phase, SigninPhase::ClickContinue);
    let f = f.advance();
    assert_eq!(f.phase, SigninPhase::Done);
}

#[test]
fn missing_elements_are_element_not_found() {
    assert_eq!(
        element_missing_error(SigninPhase::AwaitEmailField),
        SessionError::ElementNotFound
    );
    assert_eq!(
        element_missing_error(SigninPhase::FindContinue),
        SessionError::ElementNotFound
    );
}

#[test]
fn signin_targets_are_fixed() {
    assert_eq!(signin_url(), "https://signin.ebay.com/signin/");
    assert_eq!(email_selector(), "#userid");
    assert_eq!(continue_selector(), "#signin-continue-btn");
}

#[test]
fn only_the_view_subcommand_is_unimplemented() {
    assert!(Commands::View.is_unimplemented());
    assert!(!Commands::Teardown.is_unimplemented());
    assert!(!Commands::Build {
        offer_percentage: 10
    }
    .is_unimplemented());
}

#[test]
fn errors_describe_themselves() {
    assert_eq!(
        SessionError::RegistryNotFound.describe(),
        "process registry not found"
    );
    assert_eq!(
        SessionError::DependencyNotFound.describe(),
        "required external executable or resource missing"
    );
    assert_eq!(
        SessionError::ProcessSpawnFailed.describe(),
        "failed to start an auxiliary process"
    );
    assert_eq!(
        SessionError::ConnectionFailed.describe(),
        "failed to connect to the automation driver"
    );
    assert_eq!(
        SessionError::ElementNotFound.describe(),
        "a required page element was not found"
    );
    assert_eq!(
        SessionError::InvalidRegistryEntry.describe(),
        "malformed process registry entry"
    );
    assert_eq!(
        SessionError::TerminationFailed.describe(),
        "failed to terminate a recorded process"
    );
}
