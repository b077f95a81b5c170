use mcp_bridge::probe::check_availability;

#[test]
fn probe_success_reports_trimmed_stdout() {
    let r = check_availability(Some((true, String::from("  1.2.3\n"))));
    assert_eq!(r, "installed: 1.2.3");
}

#[test]
fn probe_success_with_empty_output() {
    let r = check_availability(Some((true, String::from("   \n\t"))));
    assert_eq!(r, "installed: ");
}

#[test]
fn probe_trims_unicode_white_space() {
    let r = check_availability(Some((true, String::from("\u{a0}\u{3000}v2\u{2028} \r\n"))));
    assert_eq!(r, "installed: v2");
}

#[test]
fn probe_keeps_inner_white_space() {
    let r = check_availability(Some((true, String::from(" cline 1.0 \n"))));
    assert_eq!(r, "installed: cline 1.0");
}

#[test]
fn probe_nonzero_exit_is_not_installed() {
    let r = check_availability(Some((false, String::from("some output"))));
    assert_eq!(r, "not_installed");
}

#[test]
fn probe_launch_failure_is_not_installed() {
    let r = check_availability(None);
    assert_eq!(r, "not_installed");
}
