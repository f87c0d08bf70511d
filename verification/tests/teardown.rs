use ebay_bot::errors::SessionError;
use ebay_bot::registry::{
    begin_teardown, parse_entry, plan_teardown, registry_path, render_registry, render_u32,
    termination_outcome, EntryOutcome, ProcessRegistry,
};

#[test]
fn failed_terminations_are_reported_not_escalated() {
    assert_eq!(termination_outcome(true), None);
    assert_eq!(
        termination_outcome(false),
        Some(SessionError::TerminationFailed)
    );
}

#[test]
fn teardown_of_full_registry_kills_in_order() {
    let plan = begin_teardown(Some(b"101\n202\n303\n".to_vec())).unwrap();
    assert_eq!(plan.driver, EntryOutcome::Pid(101));
    assert_eq!(plan.display, EntryOutcome::Pid(202));
    assert_eq!(plan.frame, EntryOutcome::Pid(303));
    assert_eq!(plan.kills(), vec![101, 202, 303]);
}

#[test]
fn teardown_without_trailing_newline() {
    let plan = plan_teardown(b"101\n202\n303");
    assert_eq!(plan.kills(), vec![101, 202, 303]);
}

#[test]
fn malformed_middle_line_still_kills_first_and_third() {
    let plan = plan_teardown(b"101\nxx\n303\n");
    assert_eq!(plan.driver, EntryOutcome::Pid(101));
    assert_eq!(plan.display, EntryOutcome::Invalid);
    assert_eq!(
        plan.display.entry_error(),
        Some(SessionError::InvalidRegistryEntry)
    );
    assert_eq!(plan.frame, EntryOutcome::Pid(303));
    assert_eq!(plan.kills(), vec![101, 303]);
}

#[test]
fn absent_registry_is_an_error_and_plans_nothing() {
    let r = begin_teardown(None);
    assert_eq!(r.err(), Some(SessionError::RegistryNotFound));
}

#[test]
fn missing_third_line_is_invalid() {
    let plan = plan_teardown(b"101\n202\n");
    assert_eq!(plan.driver, EntryOutcome::Pid(101));
    assert_eq!(plan.display, EntryOutcome::Pid(202));
    assert_eq!(plan.frame, EntryOutcome::Invalid);
    assert_eq!(plan.kills(), vec![101, 202]);
}

#[test]
fn zero_identifier_is_parsed_but_not_killed() {
    let plan = plan_teardown(b"0\n202\n303\n");
    assert_eq!(plan.driver, EntryOutcome::Pid(0));
    assert_eq!(plan.driver.entry_error(), None);
    assert_eq!(plan.kills(), vec![202, 303]);
}

#[test]
fn empty_registry_has_no_kills() {
    let plan = plan_teardown(b"");
    assert_eq!(plan.driver, EntryOutcome::Invalid);
    assert_eq!(plan.display, EntryOutcome::Invalid);
    assert_eq!(plan.frame, EntryOutcome::Invalid);
    assert_eq!(plan.kills(), Vec::<u32>::new());
}

#[test]
fn oversized_identifier_is_invalid() {
    let plan = plan_teardown(b"4294967296\n1\n2\n");
    assert_eq!(plan.driver, EntryOutcome::Invalid);
    assert_eq!(plan.kills(), vec![1, 2]);
}

#[test]
fn parse_entry_accepts_exact_decimals_only() {
    assert_eq!(parse_entry(b"0"), Some(0));
    assert_eq!(parse_entry(b"101"), Some(101));
    assert_eq!(parse_entry(b"4294967295"), Some(u32::MAX));
    assert_eq!(parse_entry(b""), None);
    assert_eq!(parse_entry(b"12a"), None);
    assert_eq!(parse_entry(b"-1"), None);
    assert_eq!(parse_entry(b" 1"), None);
    assert_eq!(parse_entry(b"4294967296"), None);
}

#[test]
fn render_u32_gives_canonical_decimals() {
    assert_eq!(render_u32(0), b"0".to_vec());
    assert_eq!(render_u32(7), b"7".to_vec());
    assert_eq!(render_u32(101), b"101".to_vec());
    assert_eq!(render_u32(u32::MAX), b"4294967295".to_vec());
}

#[test]
fn rendered_registry_reads_back_in_order() {
    let reg = ProcessRegistry {
        driver: 101,
        display: 202,
        frame: 303,
    };
    let bytes = render_registry(&reg);
    assert_eq!(bytes, b"101\n202\n303\n".to_vec());
    let plan = plan_teardown(&bytes);
    assert_eq!(plan.kills(), vec![101, 202, 303]);
}

#[test]
fn registry_path_is_fixed() {
    assert_eq!(registry_path(), "/tmp/ebay_driver_pids");
}
