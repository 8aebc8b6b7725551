use wx_miniprogram_server::text::{parse_i64, parse_u16, strip_prefix_text};

#[test]
fn u16_parsing_matches_std() {
    for t in ["0", "3000", "+3000", "65535", "65536", "", "+", "-0", "-1", " 1", "1 ", "12a", "007", "99999999999999999999"] {
        assert_eq!(parse_u16(t), t.parse::<u16>().ok(), "input {:?}", t);
    }
}

#[test]
fn i64_parsing_matches_std() {
    for t in [
        "0", "86400", "-86400", "+5", "-", "+", "", "--1", "+-1", "-+1",
        "9223372036854775807", "9223372036854775808",
        "-9223372036854775808", "-9223372036854775809", "1_000", "١٢",
    ] {
        assert_eq!(parse_i64(t), t.parse::<i64>().ok(), "input {:?}", t);
    }
}

#[test]
fn strip_prefix_cuts_only_a_leading_match() {
    assert_eq!(strip_prefix_text("Bearer abc", "Bearer "), Some("abc".to_string()));
    assert_eq!(strip_prefix_text("Bearer ", "Bearer "), Some(String::new()));
    assert_eq!(strip_prefix_text("bearer abc", "Bearer "), None);
    assert_eq!(strip_prefix_text("Bear", "Bearer "), None);
}
