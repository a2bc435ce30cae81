use teaops_agentd::version::{highest_version, parse_ver, split_chars, Separator};

#[test]
fn pick_highest() {
    let xml = "x/v1.0.3 y v1.0.10 z v1.0.2";
    assert_eq!(highest_version(xml).as_deref(), Some("1.0.10"));
}

#[test]
fn highest_version_none_without_versions() {
    assert_eq!(highest_version(""), None);
    assert_eq!(highest_version("no releases here"), None);
    // "version" starts with 'v' but "ersion" is no version
    assert_eq!(highest_version("version v1 v"), None);
}

#[test]
fn highest_version_from_atom_feed() {
    let xml = "<feed><entry><title>v1.2.0</title><link href=\"https://github.com/o/r/releases/tag/v1.3.1\"/></entry>\
               <entry><title>v1.2.9</title></entry></feed>";
    assert_eq!(highest_version(xml).as_deref(), Some("1.3.1"));
}

#[test]
fn highest_version_compares_numerically() {
    assert_eq!(highest_version("v1.9 v1.10").as_deref(), Some("1.10"));
    assert_eq!(highest_version("v10.0.0 v2.0.0").as_deref(), Some("10.0.0"));
    assert_eq!(highest_version("v1.2.3 v1.2.4 v1.2").as_deref(), Some("1.2.4"));
}

#[test]
fn highest_version_first_of_equal_wins() {
    // "1.0" and "1.0.0" are the same version; the first one is kept
    assert_eq!(highest_version("v1.0 v1.0.0").as_deref(), Some("1.0"));
    assert_eq!(highest_version("v1.0.0 v1.0").as_deref(), Some("1.0.0"));
}

#[test]
fn highest_version_strips_every_leading_v() {
    assert_eq!(highest_version("vv2.1").as_deref(), Some("2.1"));
}

#[test]
fn highest_version_cuts_at_non_token_chars() {
    // '-' ends the token, so "v1.2.3-beta" names 1.2.3
    assert_eq!(highest_version("v1.2.3-beta").as_deref(), Some("1.2.3"));
    // 'x' is alphanumeric, so "v1.2x" is one token that does not parse
    assert_eq!(highest_version("v1.2x"), None);
    // non-ASCII letters cut too
    assert_eq!(highest_version("év3.4é").as_deref(), Some("3.4"));
}

#[test]
fn parse_ver_forms() {
    assert_eq!(parse_ver("1.2.3"), Some((1, 2, 3)));
    assert_eq!(parse_ver("1.2"), Some((1, 2, 0)));
    assert_eq!(parse_ver("1.2.3.4"), Some((1, 2, 3)));
    assert_eq!(parse_ver("+1.2"), Some((1, 2, 0)));
    assert_eq!(parse_ver("1"), None);
    assert_eq!(parse_ver(""), None);
    assert_eq!(parse_ver("1.2."), None);
    assert_eq!(parse_ver("1.x"), None);
    assert_eq!(parse_ver("18446744073709551615.0"), Some((u64::MAX, 0, 0)));
    assert_eq!(parse_ver("18446744073709551616.0"), None);
}

#[test]
fn split_keeps_empty_pieces() {
    let s: Vec<char> = "a..b.".chars().collect();
    let parts = split_chars(&s, Separator::Dot);
    let texts: Vec<String> = parts.iter().map(|p| p.iter().collect()).collect();
    assert_eq!(texts, vec!["a", "", "b", ""]);
    let empty: Vec<char> = Vec::new();
    assert_eq!(split_chars(&empty, Separator::NonToken).len(), 1);
}
