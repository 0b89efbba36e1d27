use spotifier_core::text::{
    eq_ignore_case, last_segment, parse_path_id, parse_score, parse_u16, parse_u64, parse_u8,
    split_ws, starts_with, str_eq, trim, u64_to_string,
};

#[test]
fn decimal_parsing_is_exact() {
    assert_eq!(parse_u64("0"), Some(0));
    assert_eq!(parse_u64("007"), Some(7));
    assert_eq!(parse_u64("18446744073709551615"), Some(u64::MAX));
    assert_eq!(parse_u64("18446744073709551616"), None); // one past the top
    assert_eq!(parse_u64(""), None);
    assert_eq!(parse_u64("12a"), None);
    assert_eq!(parse_u64("-1"), None);
    assert_eq!(parse_u16("65535"), Some(u16::MAX));
    assert_eq!(parse_u16("65536"), None);
    assert_eq!(parse_u8("255"), Some(255));
    assert_eq!(parse_u8("256"), None);
}

#[test]
fn decimal_formatting_round_trips() {
    for n in [0u64, 1, 9, 10, 99, 100, 2025, u64::MAX] {
        let s = u64_to_string(n);
        assert_eq!(parse_u64(&s), Some(n));
    }
    assert_eq!(u64_to_string(0), "0");
    assert_eq!(u64_to_string(20251), "20251");
}

#[test]
fn scores_are_read_in_hundredths() {
    assert_eq!(parse_score("85"), Some(8500));
    assert_eq!(parse_score("85.5"), Some(8550));
    assert_eq!(parse_score("85.25"), Some(8525));
    assert_eq!(parse_score("0.05"), Some(5));
    assert_eq!(parse_score("100.00"), Some(10000));
    assert_eq!(parse_score("85.255"), None); // too many fraction digits
    assert_eq!(parse_score("85."), None);
    assert_eq!(parse_score(".5"), None);
    assert_eq!(parse_score("a.5"), None);
}

#[test]
fn trimming_and_tokenizing() {
    assert_eq!(trim("  hello \t"), "hello");
    assert_eq!(trim("hello"), "hello");
    assert_eq!(trim("   "), "");
    let toks = split_ws(" a  bb\tccc ");
    assert_eq!(toks, vec!["a".to_string(), "bb".to_string(), "ccc".to_string()]);
    assert_eq!(split_ws(""), Vec::<String>::new());
}

#[test]
fn string_predicates() {
    assert!(str_eq("abc", "abc"));
    assert!(!str_eq("abc", "abd"));
    assert!(eq_ignore_case("GeNaP", "genap"));
    assert!(!eq_ignore_case("genap", "ganjil"));
    assert!(starts_with("/mhs/kuliah/42", "/mhs"));
    assert!(!starts_with("/login", "/mhs"));
}

#[test]
fn path_ids_come_from_the_last_segment() {
    assert_eq!(last_segment("/mhs/kuliah/42"), "42");
    assert_eq!(last_segment("42"), "42");
    assert_eq!(parse_path_id("/mhs/kuliah/42"), Some(42));
    assert_eq!(parse_path_id("/mhs/kuliah/detail"), None);
    assert_eq!(parse_path_id("/mhs/kuliah/42/"), None);
}
