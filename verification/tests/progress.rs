use soundclip_core::progress::parse_progress;

#[test]
fn download_line_yields_exact_percentage() {
    let r = parse_progress("[download]  45.2% of ~10MiB at 1.2MiB/s");
    assert_eq!(r, Some(String::from("45.2")));
}

#[test]
fn info_line_yields_nothing() {
    assert_eq!(parse_progress("[info] done"), None);
}

#[test]
fn integer_percentage() {
    assert_eq!(parse_progress("[download] 100% of 3.00MiB"), Some(String::from("100")));
}

#[test]
fn missing_whitespace_after_tag_is_no_match() {
    assert_eq!(parse_progress("[download]45%"), None);
}

#[test]
fn missing_percent_sign_is_no_match() {
    assert_eq!(parse_progress("[download]  45.2 of ~10MiB"), None);
}

#[test]
fn malformed_number_with_two_dots_is_no_match() {
    assert_eq!(parse_progress("[download]  4.5.2% odd"), None);
}

#[test]
fn dots_without_digits_are_no_match() {
    assert_eq!(parse_progress("[download]  ...% odd"), None);
}

#[test]
fn leading_dot_number_is_reported() {
    assert_eq!(parse_progress("[download] .5%"), Some(String::from(".5")));
}

#[test]
fn out_of_range_percentage_is_passed_through() {
    assert_eq!(parse_progress("pre [download]\t150.5% post"), Some(String::from("150.5")));
}

#[test]
fn scan_recovers_at_a_later_tag() {
    assert_eq!(parse_progress("[download] abc [download] 7%"), Some(String::from("7")));
}

#[test]
fn unicode_whitespace_after_tag_matches() {
    assert_eq!(parse_progress("[download]\u{a0}45.2% of ~10MiB"), Some(String::from("45.2")));
}

#[test]
fn empty_line_yields_nothing() {
    assert_eq!(parse_progress(""), None);
}

#[test]
fn tag_at_end_of_line_yields_nothing() {
    assert_eq!(parse_progress("tail [download]"), None);
}
