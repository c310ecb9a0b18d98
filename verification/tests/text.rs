use indic_iast::text::chars_of;
use indic_iast::text::has_single_unit;
use indic_iast::text::stem_of;
use indic_iast::text::str_eq;

#[test]
fn str_eq_compares_letter_for_letter() {
    assert!(str_eq("", ""));
    assert!(str_eq("tamil", "tamil"));
    assert!(str_eq("ṭha", "ṭha"));
    assert!(!str_eq("tamil", "Tamil"));
    assert!(!str_eq("tamil", "tami"));
    assert!(!str_eq("tami", "tamil"));
    assert!(!str_eq("", " "));
    assert!(!str_eq("ā", "a"));
    assert!(!str_eq("a\u{304}", "ā"));
    assert!(!str_eq("ab", "ba"));
}

#[test]
fn chars_of_gives_the_codepoints_in_order() {
    assert_eq!(chars_of(""), Vec::<char>::new());
    assert_eq!(chars_of("abc"), vec!['a', 'b', 'c']);
    assert_eq!(chars_of("क्ष"), vec!['क', '्', 'ष']);
    assert_eq!(chars_of("m\u{310}"), vec!['m', '\u{310}']);
    assert_eq!(chars_of("\u{10ffff}\0"), vec!['\u{10ffff}', '\0']);
}

#[test]
fn single_unit_is_one_character() {
    assert!(has_single_unit("i"));
    assert!(has_single_unit("ā"));
    assert!(has_single_unit("ṝ"));
    assert!(has_single_unit("\u{10ffff}"));
    assert!(!has_single_unit(""));
    assert!(!has_single_unit("ai"));
    assert!(!has_single_unit("m\u{310}"));
}

#[test]
fn stem_is_the_text_without_its_last_character() {
    assert_eq!(stem_of("ka"), "k");
    assert_eq!(stem_of("ṭha"), "ṭh");
    assert_eq!(stem_of("a"), "");
    assert_eq!(stem_of(""), "");
    assert_eq!(stem_of("kā"), "k");
    assert_eq!(stem_of("m\u{310}"), "m");
}
