//! The sign-in flow: a fixed navigate, settle, monitor, fill and submit
//! sequence over the automation driver's control connection.
//!
//! The caller performs each driver action; the machine fixes the order. The
//! challenge monitor runs before any sensitive field is touched. Password
//! entry is out of scope: the flow ends after the continue click.

use crate::errors::SessionError;
use vstd::prelude::*;

verus! {

/// The steps of the sign-in flow, in the order they run.
#[derive(Clone, Copy, Debug, PartialEq, Eq, Structural)]
pub enum SigninPhase {
    /// Navigate to the fixed sign-in page.
    Navigate,
    /// Wait the fixed settle interval for the page to load.
    Settle,
    /// Run the challenge monitor on the current location.
    Monitor,
    /// Wait for the email input element; its absence is fatal.
    AwaitEmailField,
    /// Submit the email text to the email input.
    EnterEmail,
    /// Find the continue control; its absence is fatal.
    FindContinue,
    /// Click the continue control.
    ClickContinue,
    /// The flow is complete.
    Done,
}

/// The successor of each step.
pub open spec fn next_signin_phase(p: SigninPhase) -> SigninPhase {
    match p {
        SigninPhase::Navigate => SigninPhase::Settle,
        SigninPhase::Settle => SigninPhase::Monitor,
        SigninPhase::Monitor => SigninPhase::AwaitEmailField,
        SigninPhase::AwaitEmailField => SigninPhase::EnterEmail,
        SigninPhase::EnterEmail => SigninPhase::FindContinue,
        SigninPhase::FindContinue => SigninPhase::ClickContinue,
        SigninPhase::ClickContinue => SigninPhase::Done,
        SigninPhase::Done => SigninPhase::Done,
    }
}

/// The sign-in flow's position.
pub struct SigninFlow {
    pub phase: SigninPhase,
}

impl SigninFlow {
    /// A flow about to navigate.
    pub fn new() -> (f: Self)
        ensures
            f.phase == SigninPhase::Navigate,
    {
        SigninFlow { phase: SigninPhase::Navigate }
    }

    /// The current step succeeded: move to the next one.
    pub fn advance(self) -> (f: Self)
        requires
            self.phase != SigninPhase::Done,
        ensures
            f.phase == next_signin_phase(self.phase),
    {
        SigninFlow {
            phase: match self.phase {
                SigninPhase::Navigate => SigninPhase::Settle,
                SigninPhase::Settle => SigninPhase::Monitor,
                SigninPhase::Monitor => SigninPhase::AwaitEmailField,
                SigninPhase::AwaitEmailField => SigninPhase::EnterEmail,
                SigninPhase::EnterEmail => SigninPhase::FindContinue,
                SigninPhase::FindContinue => SigninPhase::ClickContinue,
                SigninPhase::ClickContinue => SigninPhase::Done,
                SigninPhase::Done => SigninPhase::Done,
            },
        }
    }
}

/// The error when a required element is absent within the driver's wait
/// budget: fatal to the flow step that looked for it.
pub fn element_missing_error(p: SigninPhase) -> (e: SessionError)
    requires
        p == SigninPhase::AwaitEmailField || p == SigninPhase::FindContinue,
    ensures
        e == SessionError::ElementNotFound,
{
    SessionError::ElementNotFound
}

/// The fixed sign-in page.
pub fn signin_url() -> (r: &'static str)
    ensures
        r@ == "https://signin.ebay.com/signin/"@,
{
    "https://signin.ebay.com/signin/"
}

/// The selector of the email input element.
pub fn email_selector() -> (r: &'static str)
    ensures
        r@ == "#userid"@,
{
    "#userid"
}

/// The selector of the continue control.
pub fn continue_selector() -> (r: &'static str)
    ensures
        r@ == "#signin-continue-btn"@,
{
    "#signin-continue-btn"
}

} // verus!
