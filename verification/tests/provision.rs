use ebay_bot::errors::SessionError;
use ebay_bot::profile::{
    extension_resource_path, extension_target_name, extensions_dir_name, prefs_content,
    prefs_file_name, provision_actions, ProvisionAction,
};

#[test]
fn provisioning_with_resource_plans_all_three_actions() {
    let (actions, outcome) = provision_actions(true);
    assert_eq!(
        actions,
        vec![
            ProvisionAction::WritePrefs,
            ProvisionAction::CreateExtensionsDir,
            ProvisionAction::CopyExtension,
        ]
    );
    assert_eq!(outcome, Ok(()));
}

#[test]
fn missing_resource_fails_and_plans_no_copy() {
    let (actions, outcome) = provision_actions(false);
    assert!(!actions.contains(&ProvisionAction::CopyExtension));
    assert_eq!(
        actions,
        vec![
            ProvisionAction::WritePrefs,
            ProvisionAction::CreateExtensionsDir,
        ]
    );
    assert_eq!(outcome, Err(SessionError::DependencyNotFound));
}

#[test]
fn profile_names_are_fixed() {
    assert_eq!(prefs_file_name(), "user.js");
    assert_eq!(extensions_dir_name(), "extensions");
    assert_eq!(extension_resource_path(), "./resources/buster.xpi");
    assert_eq!(extension_target_name(), "buster@dessant.xpi");
}

#[test]
fn preferences_disable_automation_signals() {
    let prefs = prefs_content();
    assert!(prefs.contains("user_pref(\"dom.webdriver.enabled\", false);"));
    assert!(prefs.contains("user_pref(\"useAutomationExtension\", false);"));
    assert!(prefs.contains("general.useragent.override"));
    assert!(prefs.contains("user_pref(\"geo.enabled\", false);"));
    assert!(prefs.contains("user_pref(\"dom.battery.enabled\", false);"));
    assert!(prefs.contains("user_pref(\"network.http.sendRefererHeader\", 2);"));
}
