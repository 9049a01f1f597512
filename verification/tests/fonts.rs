use galileo_maplibre::layer::fonts::{parse_ml_fonts, FontStyle, FontWeight};
use galileo_maplibre::style::layer::symbol::default_font;

fn fonts(entries: &[&str]) -> Vec<String> {
    entries.iter().map(|s| s.to_string()).collect()
}

#[test]
fn bold_italic_suffixes_are_read_and_stripped() {
    let (families, weight, style) = parse_ml_fonts(&fonts(&["Roboto Bold Italic"]));
    assert_eq!(families, vec!["Roboto".to_string()]);
    assert_eq!(weight, FontWeight::Bold);
    assert_eq!(style, FontStyle::Italic);
}

#[test]
fn regular_is_the_normal_weight() {
    let (families, weight, style) = parse_ml_fonts(&fonts(&["Noto Sans Regular"]));
    assert_eq!(families, vec!["Noto Sans".to_string()]);
    assert_eq!(weight, FontWeight::Normal);
    assert_eq!(style, FontStyle::Normal);
}

#[test]
fn default_font_stack_parses_to_two_families() {
    let (families, weight, style) = parse_ml_fonts(&default_font());
    assert_eq!(families, vec!["Open Sans".to_string(), "Arial Unicode MS".to_string()]);
    assert_eq!(weight, FontWeight::Normal);
    assert_eq!(style, FontStyle::Normal);
}

#[test]
fn default_font_is_open_sans_then_arial_unicode() {
    assert_eq!(
        default_font(),
        vec!["Open Sans Regular".to_string(), "Arial Unicode MS Regular".to_string()]
    );
}

#[test]
fn weight_keywords_are_tried_in_their_order() {
    // `ExtraBold` ends with `Bold` and is taken off whole.
    let (families, weight, style) = parse_ml_fonts(&fonts(&["Noto Sans ExtraBold"]));
    assert_eq!(families, vec!["Noto Sans".to_string()]);
    assert_eq!(weight, FontWeight::ExtraBold);
    assert_eq!(style, FontStyle::Normal);
    let (families, weight, _) = parse_ml_fonts(&fonts(&["Foo Bold"]));
    assert_eq!(families, vec!["Foo".to_string()]);
    assert_eq!(weight, FontWeight::Bold);
    // `SemiBold` is tried before `Bold`.
    let (families, weight, _) = parse_ml_fonts(&fonts(&["Foo SemiBold"]));
    assert_eq!(families, vec!["Foo".to_string()]);
    assert_eq!(weight, FontWeight::SemiBold);
    // `ExtraLight` is tried before `Light`.
    let (families, weight, _) = parse_ml_fonts(&fonts(&["Foo ExtraLight"]));
    assert_eq!(families, vec!["Foo".to_string()]);
    assert_eq!(weight, FontWeight::ExtraLight);
}

#[test]
fn heavy_is_black_and_oblique_is_a_style() {
    let (families, weight, style) = parse_ml_fonts(&fonts(&["Inter Heavy Oblique"]));
    assert_eq!(families, vec!["Inter".to_string()]);
    assert_eq!(weight, FontWeight::Black);
    assert_eq!(style, FontStyle::Oblique);
}

#[test]
fn every_weight_keyword_is_read() {
    let cases = [
        ("A Thin", FontWeight::Thin),
        ("A ExtraLight", FontWeight::ExtraLight),
        ("A Light", FontWeight::Light),
        ("A Regular", FontWeight::Normal),
        ("A Medium", FontWeight::Medium),
        ("A SemiBold", FontWeight::SemiBold),
        ("A ExtraBold", FontWeight::ExtraBold),
        ("A Bold", FontWeight::Bold),
        ("A Black", FontWeight::Black),
        ("A Heavy", FontWeight::Black),
    ];
    for (entry, expected) in cases {
        let (families, weight, style) = parse_ml_fonts(&fonts(&[entry]));
        assert_eq!(families, vec!["A".to_string()], "{entry}");
        assert_eq!(weight, expected, "{entry}");
        assert_eq!(style, FontStyle::Normal, "{entry}");
    }
}

#[test]
fn surrounding_whitespace_is_trimmed() {
    let (families, weight, _) = parse_ml_fonts(&fonts(&["  Roboto   Light \t"]));
    assert_eq!(families, vec!["Roboto".to_string()]);
    assert_eq!(weight, FontWeight::Light);
}

#[test]
fn unicode_whitespace_is_trimmed() {
    let (families, _, _) = parse_ml_fonts(&fonts(&["\u{3000}Noto\u{a0}Sans\u{2003}"]));
    assert_eq!(families, vec!["Noto\u{a0}Sans".to_string()]);
}

#[test]
fn an_entry_that_is_only_keywords_gives_no_family() {
    let (families, weight, style) = parse_ml_fonts(&fonts(&["Bold Italic", "  ", "Roboto"]));
    assert_eq!(families, vec!["Roboto".to_string()]);
    assert_eq!(weight, FontWeight::Bold);
    assert_eq!(style, FontStyle::Italic);
}

#[test]
fn empty_font_stack() {
    let (families, weight, style) = parse_ml_fonts(&[]);
    assert!(families.is_empty());
    assert_eq!(weight, FontWeight::Normal);
    assert_eq!(style, FontStyle::Normal);
}

#[test]
fn weight_and_style_come_from_the_first_entry_naming_them() {
    let (families, weight, style) =
        parse_ml_fonts(&fonts(&["Noto Sans", "Roboto Bold", "Inter Light Italic"]));
    assert_eq!(
        families,
        vec!["Noto Sans".to_string(), "Roboto".to_string(), "Inter".to_string()]
    );
    assert_eq!(weight, FontWeight::Bold);
    assert_eq!(style, FontStyle::Italic);
}

#[test]
fn fallback_entries_lose_their_keywords_too() {
    let (families, weight, style) = parse_ml_fonts(&fonts(&["Roboto Medium", "Arial Black Oblique"]));
    assert_eq!(families, vec!["Roboto".to_string(), "Arial".to_string()]);
    assert_eq!(weight, FontWeight::Medium);
    assert_eq!(style, FontStyle::Oblique);
}

#[test]
fn families_of_a_stack_are_those_of_its_parts() {
    let a = fonts(&["Roboto Bold", "Bold"]);
    let b = fonts(&["Noto Sans Italic", "Arial"]);
    let mut ab = a.clone();
    ab.extend(b.clone());
    let mut expected = parse_ml_fonts(&a).0;
    expected.extend(parse_ml_fonts(&b).0);
    assert_eq!(parse_ml_fonts(&ab).0, expected);
}

#[test]
fn families_are_non_empty_and_trimmed() {
    let (families, _, _) = parse_ml_fonts(&fonts(&[" Italic ", " A  Bold ", "B\t", "Regular"]));
    assert_eq!(families, vec!["A".to_string(), "B".to_string()]);
    for f in &families {
        assert!(!f.is_empty());
        assert_eq!(f.trim(), f);
    }
}
