use clockify_cli::duration::format_duration;

#[test]
fn zero_single_component_reports_no_time() {
    assert_eq!(format_duration("PT0S"), "No time registered");
    assert_eq!(format_duration("PT0H"), "No time registered");
    assert_eq!(format_duration("PT00M"), "No time registered");
}

#[test]
fn one_component_uses_plural_unit() {
    assert_eq!(format_duration("PT1H"), "1 hours");
    assert_eq!(format_duration("PT45M"), "45 minutes");
    assert_eq!(format_duration("PT9S"), "9 seconds");
}

#[test]
fn one_component_renders_canonical_number() {
    assert_eq!(format_duration("PT007M"), "7 minutes");
    assert_eq!(format_duration("PT010H"), "10 hours");
}

#[test]
fn two_components_join_with_ampersand() {
    assert_eq!(format_duration("PT1H30M"), "1 hours & 30 minutes");
    assert_eq!(format_duration("PT5M10S"), "5 minutes & 10 seconds");
}

#[test]
fn two_components_keep_digits_verbatim() {
    assert_eq!(format_duration("PT01H02M"), "01 hours & 02 minutes");
}

#[test]
fn three_components_join_with_comma_and_ampersand() {
    assert_eq!(format_duration("PT2H15M10S"), "2 hours, 15 minutes & 10 seconds");
}

#[test]
fn no_components_reports_no_time() {
    assert_eq!(format_duration("PT"), "No time registered");
    assert_eq!(format_duration(""), "No time registered");
    assert_eq!(format_duration("P"), "No time registered");
}

#[test]
fn four_components_report_no_time() {
    assert_eq!(format_duration("PT1H2M3S4S"), "No time registered");
}

#[test]
fn unreadable_bodies_report_no_time() {
    assert_eq!(format_duration("PT5X"), "No time registered");
    assert_eq!(format_duration("PT5h"), "No time registered");
    assert_eq!(format_duration("PTH"), "No time registered");
    assert_eq!(format_duration("PT5"), "No time registered");
    assert_eq!(format_duration("PT1234567890H"), "No time registered");
}
