use rustored::text::{
    bool_to_string, concat3, ends_with_char, lowercases_to_true, parse_bool, parse_u16, pop_char, push_char,
    replace_char, starts_with, stars, str_eq, u16_to_string,
};

#[test]
fn parse_u16_cases() {
    assert_eq!(parse_u16("5432"), Some(5432));
    assert_eq!(parse_u16("+7"), Some(7));
    assert_eq!(parse_u16("0"), Some(0));
    assert_eq!(parse_u16("65535"), Some(65535));
    assert_eq!(parse_u16("65536"), None);
    assert_eq!(parse_u16(""), None);
    assert_eq!(parse_u16("+"), None);
    assert_eq!(parse_u16("-1"), None);
    assert_eq!(parse_u16("12a"), None);
    assert_eq!(parse_u16(" 1"), None);
    assert_eq!(parse_u16("007"), Some(7));
    for s in ["5432", "+7", "65536", "", "abc", "0009"] {
        assert_eq!(parse_u16(s), s.parse::<u16>().ok());
    }
}

#[test]
fn decimal_round_trip() {
    for n in [0u16, 7, 10, 99, 5432, 65535] {
        let s = u16_to_string(n);
        assert_eq!(s, n.to_string());
        assert_eq!(parse_u16(&s), Some(n));
    }
}

#[test]
fn booleans() {
    assert_eq!(bool_to_string(true), "true");
    assert_eq!(bool_to_string(false), "false");
    assert_eq!(parse_bool("true"), Some(true));
    assert_eq!(parse_bool("false"), Some(false));
    assert_eq!(parse_bool("True"), None);
    assert_eq!(parse_bool(&bool_to_string(true)), Some(true));
    assert!(lowercases_to_true("TRUE"));
    assert!(lowercases_to_true("tRuE"));
    assert!(!lowercases_to_true("truE "));
    assert!(!lowercases_to_true("yes"));
}

#[test]
fn string_helpers() {
    let mut s = "ab".to_string();
    push_char(&mut s, 'c');
    assert_eq!(s, "abc");
    assert_eq!(pop_char(&mut s), Some('c'));
    assert_eq!(s, "ab");
    let mut e = String::new();
    assert_eq!(pop_char(&mut e), None);
    assert!(str_eq("a", "a"));
    assert!(!str_eq("a", "b"));
    assert!(starts_with("backups/x", "backups/"));
    assert!(!starts_with("back", "backups/"));
    assert!(starts_with("x", ""));
    assert!(ends_with_char("dir/", '/'));
    assert!(!ends_with_char("", '/'));
    assert_eq!(replace_char("a/b/c", '/', '_'), "a_b_c");
    assert_eq!(stars(3), "***");
    assert_eq!(concat3("a", "-", "b"), "a-b");
}
