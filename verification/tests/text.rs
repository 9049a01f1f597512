use galileo_maplibre::text::{
    chars_of, decimal_of, ends_with_exec, replace_all_exec, signed_decimal_of, str_eq,
    string_from_chars, trim_chars,
};

fn s(v: &[char]) -> String {
    v.iter().collect()
}

#[test]
fn trims_like_str_trim() {
    for text in ["", "   ", " a b ", "\t\nab\r\n", "\u{2028}x\u{85}", "x"] {
        assert_eq!(s(&trim_chars(&chars_of(text))), text.trim(), "{text:?}");
    }
}

#[test]
fn trimming_twice_is_trimming_once() {
    let once = trim_chars(&chars_of(" \u{a0} Noto Sans \u{3000}"));
    assert_eq!(trim_chars(&once), once);
}

#[test]
fn replaces_every_occurrence_left_to_right() {
    let out = replace_all_exec(&chars_of("aaa-aa"), &chars_of("aa"), &chars_of("b"));
    assert_eq!(s(&out), "aaa-aa".replace("aa", "b"));
    assert_eq!(s(&out), "ba-b");
}

#[test]
fn replacing_an_absent_pattern_changes_nothing() {
    let out = replace_all_exec(&chars_of("tiles/1/2"), &chars_of("{z}"), &chars_of("9"));
    assert_eq!(s(&out), "tiles/1/2");
}

#[test]
fn decimal_notation() {
    assert_eq!(s(&decimal_of(0)), "0");
    assert_eq!(s(&decimal_of(7)), "7");
    assert_eq!(s(&decimal_of(1024)), "1024");
    assert_eq!(s(&decimal_of(u64::MAX)), u64::MAX.to_string());
    assert_eq!(s(&signed_decimal_of(-45)), "-45");
    assert_eq!(s(&signed_decimal_of(i64::MIN + 1)), (i64::MIN + 1).to_string());
    assert_eq!(s(&signed_decimal_of(12)), "12");
}

#[test]
fn suffixes_and_equality() {
    assert!(ends_with_exec(&chars_of("Roboto Bold"), &chars_of("Bold")));
    assert!(!ends_with_exec(&chars_of("Bold"), &chars_of("ExtraBold")));
    assert!(ends_with_exec(&chars_of("x"), &chars_of("")));
    assert!(str_eq("top-left", "top-left"));
    assert!(!str_eq("top", "top-left"));
}

#[test]
fn strings_from_characters() {
    assert_eq!(string_from_chars(&['{', 'n', '}']), "{n}");
    assert_eq!(string_from_chars(&[]), "");
}
