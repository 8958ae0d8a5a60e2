use i3ctl::path::{escape_control, sanitize, SanitizeError};
use i3ctl::Warning;

#[test]
fn escape_control_sequences() {
    assert_eq!(escape_control("a\nb\tc\"d\\e"), "a\\nb\\tc\\\"d\\\\e");
    assert_eq!(escape_control(""), "");
    assert_eq!(escape_control("/plain/path"), "/plain/path");
    assert_eq!(escape_control("ünï"), "ünï");
}

#[test]
fn sanitize_rejects_single_quote() {
    assert_eq!(sanitize("/tmp/a'b").unwrap_err(), SanitizeError::SingleQuote);
    assert_eq!(sanitize("'").unwrap_err(), SanitizeError::SingleQuote);
}

#[test]
fn sanitize_escapes_and_warns() {
    let p = sanitize("/home/alice/proj").unwrap();
    assert_eq!(p.as_str(), "/home/alice/proj");
    assert_eq!(p.warning(), None);
    let p = sanitize("/home/my dir\n").unwrap();
    assert_eq!(p.as_str(), "/home/my dir\\n");
    assert_eq!(p.warning(), Some(Warning::NonGraphicPath));
    let p = sanitize("/tmp/é").unwrap();
    assert_eq!(p.as_str(), "/tmp/é");
    assert_eq!(p.warning(), Some(Warning::NonGraphicPath));
}

#[test]
fn sanitized_has_no_raw_newline_tab_or_quote() {
    let p = sanitize("a\tb\nc\"d\\").unwrap();
    let s = p.as_str();
    assert!(!s.contains('\n') && !s.contains('\t') && !s.contains('\''));
    assert_eq!(s, "a\\tb\\nc\\\"d\\\\");
}
