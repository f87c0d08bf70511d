//! The profile provisioner: the exact contents of an ephemeral browser
//! configuration directory, and the plan of filesystem actions that builds
//! it.
//!
//! The caller owns the temporary directory and performs the actions; this
//! module decides what is written where, and refuses to proceed without the
//! bundled challenge-solving extension.

use crate::errors::SessionError;
use vstd::prelude::*;

verus! {

/// One filesystem action of the provisioning sequence, relative to the fresh
/// profile directory.
#[derive(Clone, Copy, Debug, PartialEq, Eq, Structural)]
pub enum ProvisionAction {
    /// Write the preferences file `user.js` with `prefs_content()`.
    WritePrefs,
    /// Create the `extensions` subdirectory.
    CreateExtensionsDir,
    /// Copy the extension from `extension_resource_path()` to
    /// `extension_target_name()` inside the `extensions` subdirectory.
    CopyExtension,
}

/// The provisioning actions, in order, given whether the extension resource
/// exists: the preferences and the directory always, the copy only when the
/// resource is there.
pub open spec fn provision_plan(resource_exists: bool) -> Seq<ProvisionAction> {
    if resource_exists {
        seq![
            ProvisionAction::WritePrefs,
            ProvisionAction::CreateExtensionsDir,
            ProvisionAction::CopyExtension,
        ]
    } else {
        seq![ProvisionAction::WritePrefs, ProvisionAction::CreateExtensionsDir]
    }
}

/// The provisioning outcome: success exactly when the extension resource
/// exists; its absence is fatal, and no placeholder is substituted.
pub open spec fn provision_result(resource_exists: bool) -> Result<(), SessionError> {
    if resource_exists {
        Ok(())
    } else {
        Err(SessionError::DependencyNotFound)
    }
}

/// Plans the provisioning of a fresh profile directory.
///
/// Returns the ordered filesystem actions to perform and the outcome: with
/// the extension resource absent the plan still writes the preferences and
/// creates the directory (as the session build does before it checks), but
/// plans no copy and fails with a dependency error.
pub fn provision_actions(resource_exists: bool) -> (r: (Vec<ProvisionAction>, Result<
    (),
    SessionError,
>))
    ensures
        r.0@ == provision_plan(resource_exists),
        r.1 == provision_result(resource_exists),
{
    let mut actions: Vec<ProvisionAction> = Vec::new();
    actions.push(ProvisionAction::WritePrefs);
    actions.push(ProvisionAction::CreateExtensionsDir);
    if resource_exists {
        actions.push(ProvisionAction::CopyExtension);
        proof {
            assert(actions@ =~= provision_plan(true));
        }
        (actions, Ok(()))
    } else {
        proof {
            assert(actions@ =~= provision_plan(false));
        }
        (actions, Err(SessionError::DependencyNotFound))
    }
}

/// Without the extension resource, provisioning fails with a dependency
/// error and plans no copied-extension artifact at all.
pub proof fn lemma_no_artifact_without_resource()
    ensures
        !provision_plan(false).contains(ProvisionAction::CopyExtension),
        provision_result(false) == Err::<(), SessionError>(SessionError::DependencyNotFound),
{
    assert forall|i: int| 0 <= i < provision_plan(false).len() implies provision_plan(false)[i]
        != ProvisionAction::CopyExtension by {}
}

/// The name of the preferences file inside the profile directory.
pub fn prefs_file_name() -> (r: &'static str)
    ensures
        r@ == "user.js"@,
{
    "user.js"
}

/// The name of the extensions subdirectory inside the profile directory.
pub fn extensions_dir_name() -> (r: &'static str)
    ensures
        r@ == "extensions"@,
{
    "extensions"
}

/// The fixed local path the challenge-solving extension is copied from.
pub fn extension_resource_path() -> (r: &'static str)
    ensures
        r@ == "./resources/buster.xpi"@,
{
    "./resources/buster.xpi"
}

/// The file name the extension is installed under.
pub fn extension_target_name() -> (r: &'static str)
    ensures
        r@ == "buster@dessant.xpi"@,
{
    "buster@dessant.xpi"
}

/// The preferences written to `user.js`: anti-fingerprinting overrides,
/// automation-detection switches, fingerprint surfaces, startup noise,
/// geolocation and tracking, and referrer policy.
pub fn prefs_content() -> (r: &'static str)
    ensures
        r@ == prefs_text(),
{
    "
// --- Anti-fingerprinting ---
user_pref(\"general.useragent.override\", \"Mozilla/5.0 (Windows NT 10.0; Win64; x64) AppleWebKit/537.36 (KHTML, like Gecko) Chrome/122.0.0.0 Safari/537.36\");
user_pref(\"general.platform.override\", \"Win32\");
user_pref(\"intl.accept_languages\", \"en-US,en\");

// --- Disable automation detection ---
user_pref(\"dom.webdriver.enabled\", false);
user_pref(\"useAutomationExtension\", false);
user_pref(\"media.navigator.enabled\", false);
user_pref(\"media.peerconnection.enabled\", false);
user_pref(\"privacy.resistFingerprinting\", false);

// --- Fingerprint surfaces ---
user_pref(\"canvas.capturestream.enabled\", false);
user_pref(\"canvas.logging.enabled\", false);
user_pref(\"gfx.offscreencanvas.enabled\", false);
user_pref(\"dom.battery.enabled\", false);
user_pref(\"dom.gamepad.enabled\", false);

// --- Startup noise ---
user_pref(\"browser.startup.homepage_override.mstone\", \"ignore\");
user_pref(\"startup.homepage_welcome_url\", \"\");
user_pref(\"startup.homepage_welcome_url.additional\", \"\");
user_pref(\"browser.aboutwelcome.enabled\", false);

// --- Geolocation & tracking ---
user_pref(\"geo.enabled\", false);
user_pref(\"privacy.trackingprotection.enabled\", false);

// --- Referrer spoofing ---
user_pref(\"network.http.referer.XOriginPolicy\", 0);
user_pref(\"network.http.referer.trimmingPolicy\", 0);
user_pref(\"network.http.sendRefererHeader\", 2);
"
}

/// The preferences text, as a specification value.
pub open spec fn prefs_text() -> Seq<char> {
    "
// --- Anti-fingerprinting ---
user_pref(\"general.useragent.override\", \"Mozilla/5.0 (Windows NT 10.0; Win64; x64) AppleWebKit/537.36 (KHTML, like Gecko) Chrome/122.0.0.0 Safari/537.36\");
user_pref(\"general.platform.override\", \"Win32\");
user_pref(\"intl.accept_languages\", \"en-US,en\");

// --- Disable automation detection ---
user_pref(\"dom.webdriver.enabled\", false);
user_pref(\"useAutomationExtension\", false);
user_pref(\"media.navigator.enabled\", false);
user_pref(\"media.peerconnection.enabled\", false);
user_pref(\"privacy.resistFingerprinting\", false);

// --- Fingerprint surfaces ---
user_pref(\"canvas.capturestream.enabled\", false);
user_pref(\"canvas.logging.enabled\", false);
user_pref(\"gfx.offscreencanvas.enabled\", false);
user_pref(\"dom.battery.enabled\", false);
user_pref(\"dom.gamepad.enabled\", false);

// --- Startup noise ---
user_pref(\"browser.startup.homepage_override.mstone\", \"ignore\");
user_pref(\"startup.homepage_welcome_url\", \"\");
user_pref(\"startup.homepage_welcome_url.additional\", \"\");
user_pref(\"browser.aboutwelcome.enabled\", false);

// --- Geolocation & tracking ---
user_pref(\"geo.enabled\", false);
user_pref(\"privacy.trackingprotection.enabled\", false);

// --- Referrer spoofing ---
user_pref(\"network.http.referer.XOriginPolicy\", 0);
user_pref(\"network.http.referer.trimmingPolicy\", 0);
user_pref(\"network.http.sendRefererHeader\", 2);
"@
}

} // verus!
