use rusty::text::{analysis_text, decode_text, parse_usize, ANALYSIS_BYTES};

#[test]
fn parse_plain_digits() {
    assert_eq!(parse_usize("42"), Some(42));
    assert_eq!(parse_usize("0"), Some(0));
    assert_eq!(parse_usize("007"), Some(7));
}

#[test]
fn parse_leading_plus() {
    assert_eq!(parse_usize("+15"), Some(15));
    assert_eq!(parse_usize("+"), None);
    assert_eq!(parse_usize("++1"), None);
}

#[test]
fn parse_refuses_non_digits() {
    assert_eq!(parse_usize(""), None);
    assert_eq!(parse_usize("-1"), None);
    assert_eq!(parse_usize("-0"), None);
    assert_eq!(parse_usize("12a"), None);
    assert_eq!(parse_usize(" 1"), None);
    assert_eq!(parse_usize("1 "), None);
    assert_eq!(parse_usize("<398dc2a3@prdphjobs01>"), None);
}

#[test]
fn parse_agrees_with_std() {
    for s in ["1", "+9", "18446744073709551615", "18446744073709551616", "99999999999999999999999", "4294967296", "", "+", "x", "-3"] {
        assert_eq!(parse_usize(s), s.parse::<usize>().ok(), "input {:?}", s);
    }
}

#[test]
fn parse_max_and_overflow() {
    let max = usize::MAX.to_string();
    assert_eq!(parse_usize(&max), Some(usize::MAX));
    let over = format!("{}0", max);
    assert_eq!(parse_usize(&over), None);
    let over_then_letter = format!("{}0x", max);
    assert_eq!(parse_usize(&over_then_letter), None);
}

#[test]
fn decode_valid_and_invalid() {
    assert_eq!(decode_text(b"hello").as_deref(), Some("hello"));
    assert_eq!(decode_text("héllo".as_bytes()).as_deref(), Some("héllo"));
    assert_eq!(decode_text(&[0xff, 0x41]), None);
    assert_eq!(decode_text(&[0xc3]), None);
    assert_eq!(decode_text(b"").as_deref(), Some(""));
}

#[test]
fn analysis_keeps_short_text_whole() {
    let body = "a".repeat(ANALYSIS_BYTES - 1);
    assert_eq!(analysis_text(&body), Some(body.as_str()));
    assert_eq!(analysis_text("hi"), Some("hi"));
}

#[test]
fn analysis_cuts_long_text() {
    let body = "b".repeat(ANALYSIS_BYTES + 10);
    let part = analysis_text(&body).unwrap();
    assert_eq!(part.len(), ANALYSIS_BYTES);
    assert!(body.starts_with(part));
    let exact = "c".repeat(ANALYSIS_BYTES);
    assert_eq!(analysis_text(&exact), Some(exact.as_str()));
}

#[test]
fn analysis_refuses_split_character() {
    // 4999 ASCII bytes then a two-byte character occupying bytes 4999 and 5000.
    let body = format!("{}é", "a".repeat(ANALYSIS_BYTES - 1));
    assert_eq!(body.len(), ANALYSIS_BYTES + 1);
    assert_eq!(analysis_text(&body), None);
    // Ending just before the budget cuts cleanly.
    let body = format!("{}éz", "a".repeat(ANALYSIS_BYTES - 2));
    assert_eq!(analysis_text(&body).map(|t| t.len()), Some(ANALYSIS_BYTES));
}
