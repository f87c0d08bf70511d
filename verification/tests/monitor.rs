use ebay_bot::challenge::{location_challenged, monitor_init, monitor_step, MonitorState};

#[test]
fn marker_is_found_case_insensitively() {
    assert!(location_challenged(b"https://www.ebay.com/splashui/captcha?ru=x"));
    assert!(location_challenged(b"https://host/CAPTCHA"));
    assert!(location_challenged(b"https://host/CaPtChA/page"));
    assert!(location_challenged(b"captcha"));
}

#[test]
fn clear_locations_have_no_marker() {
    assert!(!location_challenged(b""));
    assert!(!location_challenged(b"captch"));
    assert!(!location_challenged(b"https://signin.ebay.com/signin/"));
    assert!(!location_challenged(b"captchX"));
}

#[test]
fn clear_initial_location_returns_without_polling() {
    let s = monitor_init(b"https://signin.ebay.com/signin/".to_vec());
    assert!(matches!(s, MonitorState::Clear));
}

#[test]
fn two_challenged_samples_then_clear_takes_two_cycles() {
    let s0 = monitor_init(b"https://host/captcha?entry".to_vec());
    assert!(matches!(s0, MonitorState::Challenged { .. }));
    let mut cycles = 0;

    cycles += 1;
    let s1 = monitor_step(s0, b"https://host/captcha?entry".to_vec());
    assert!(matches!(s1, MonitorState::Challenged { .. }));

    cycles += 1;
    let s2 = monitor_step(s1, b"https://host/home".to_vec());
    assert!(matches!(s2, MonitorState::Clear));

    assert_eq!(cycles, 2);
}

#[test]
fn a_marked_sample_never_releases_the_monitor() {
    let s0 = monitor_init(b"https://host/captcha?entry".to_vec());
    let s1 = monitor_step(s0, b"https://host/other/captcha".to_vec());
    match s1 {
        MonitorState::Challenged { entry } => {
            assert_eq!(entry, b"https://host/captcha?entry".to_vec());
        }
        MonitorState::Clear => panic!("monitor released on a marked sample"),
    }
}

#[test]
fn an_unchanged_location_never_releases_the_monitor() {
    let s0 = monitor_init(b"https://host/captcha".to_vec());
    let s1 = monitor_step(s0, b"https://host/captcha".to_vec());
    assert!(matches!(s1, MonitorState::Challenged { .. }));
}
