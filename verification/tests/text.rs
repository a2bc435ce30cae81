use teaops_agentd::text::{decimal_string, parse_u64, string_from_chars, trim_chars, chars_of};

#[test]
fn parse_u64_like_std() {
    for s in ["0", "42", "+42", "007", "18446744073709551615", "18446744073709551616", "", "+", "-1", " 1", "1 ", "4a", "++1"] {
        assert_eq!(parse_u64(s), s.parse::<u64>().ok(), "input {:?}", s);
    }
}

#[test]
fn decimal_string_renders() {
    assert_eq!(decimal_string(0), "0");
    assert_eq!(decimal_string(7), "7");
    assert_eq!(decimal_string(1725029869), "1725029869");
    assert_eq!(decimal_string(u64::MAX), u64::MAX.to_string());
}

#[test]
fn trim_like_std() {
    for s in ["  12 \n", "\t\u{3000}x y\u{a0}", "", "   ", "abc"] {
        let v = chars_of(s);
        let t: String = trim_chars(&v).into_iter().collect();
        assert_eq!(t, s.trim());
    }
}

#[test]
fn string_from_chars_keeps_order() {
    assert_eq!(string_from_chars(&['a', 'b', 'é']), "abé");
}
