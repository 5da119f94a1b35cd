use uvc_control::link::{parse_pid, parse_vid};

#[test]
fn parses_both_ids_from_a_device_path() {
    let link = "\\\\?\\usb#vid_046d&pid_0825&mi_00#7&2f3a&0&0000#{guid}";
    assert_eq!(parse_vid(link), Some(0x046d));
    assert_eq!(parse_pid(link), Some(0x0825));
}

#[test]
fn marker_case_does_not_matter() {
    assert_eq!(parse_pid("PID_12AB"), Some(0x12ab));
    assert_eq!(parse_pid("pid_12ab"), Some(0x12ab));
    assert_eq!(parse_pid("Pid_12aB"), Some(0x12ab));
    assert_eq!(parse_vid("VID_FF"), Some(0xff));
}

#[test]
fn missing_marker_yields_nothing() {
    assert_eq!(parse_pid("vid_046d only"), None);
    assert_eq!(parse_pid(""), None);
    assert_eq!(parse_vid("pid_0825"), None);
}

#[test]
fn a_marker_without_hex_digits_is_skipped() {
    assert_eq!(parse_pid("pid_x then pid_7"), Some(7));
    assert_eq!(parse_pid("pid_"), None);
}

#[test]
fn the_first_matching_marker_wins() {
    assert_eq!(parse_pid("pid_1 pid_2"), Some(1));
}

#[test]
fn the_hex_run_is_maximal() {
    // the run does not stop at four digits; a five-digit value overflows
    assert_eq!(parse_pid("pid_12345"), None);
    assert_eq!(parse_pid("pid_1234&"), Some(0x1234));
}

#[test]
fn leading_zeros_do_not_overflow() {
    assert_eq!(parse_pid("pid_0000ffff"), Some(0xffff));
    assert_eq!(parse_pid("pid_00000"), Some(0));
}

#[test]
fn value_just_over_sixteen_bits_overflows() {
    assert_eq!(parse_pid("pid_10000"), None);
    assert_eq!(parse_pid("pid_ffff"), Some(0xffff));
}
