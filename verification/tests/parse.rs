use dev_monitor::cpu::parse_millidegrees;

#[test]
fn plain_digit_runs_parse() {
    assert_eq!(parse_millidegrees(b"45000"), Some(45000));
    assert_eq!(parse_millidegrees(b"0"), Some(0));
    assert_eq!(parse_millidegrees(b"7"), Some(7));
    assert_eq!(parse_millidegrees(b"007"), Some(7));
}

#[test]
fn trailing_whitespace_is_trimmed() {
    assert_eq!(parse_millidegrees(b"45000\n"), Some(45000));
    assert_eq!(parse_millidegrees(b"45000 \t\r\n"), Some(45000));
}

#[test]
fn one_leading_plus_sign_is_accepted() {
    assert_eq!(parse_millidegrees(b"+45000"), Some(45000));
    assert_eq!(parse_millidegrees(b"+0\n"), Some(0));
    assert_eq!(parse_millidegrees(b"+"), None);
    assert_eq!(parse_millidegrees(b"++1"), None);
    assert_eq!(parse_millidegrees(b"1+2"), None);
}

#[test]
fn empty_or_blank_text_has_no_value() {
    assert_eq!(parse_millidegrees(b""), None);
    assert_eq!(parse_millidegrees(b" \n"), None);
}

#[test]
fn non_digit_content_has_no_value() {
    assert_eq!(parse_millidegrees(b"12a3"), None);
    assert_eq!(parse_millidegrees(b"-5"), None);
    assert_eq!(parse_millidegrees(b"4 5"), None);
    assert_eq!(parse_millidegrees(b" 45"), None);
}

#[test]
fn values_stop_at_the_u32_ceiling() {
    assert_eq!(parse_millidegrees(b"4294967295"), Some(u32::MAX));
    assert_eq!(parse_millidegrees(b"4294967296"), None);
    assert_eq!(parse_millidegrees(b"99999999999999999999"), None);
}
