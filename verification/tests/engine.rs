use indic_iast::profile::ScriptProfile;
use indic_iast::symbol::SymbolEntry;

fn small_script() -> ScriptProfile {
    let mut profile = ScriptProfile::new("sample");
    assert!(profile.insert('k', SymbolEntry::ConsonantSyllable(String::from("ka"))).is_ok());
    assert!(profile.insert('s', SymbolEntry::ConsonantSyllable(String::from("ṣa"))).is_ok());
    assert!(profile.insert('t', SymbolEntry::ConsonantSyllable(String::from("ṭha"))).is_ok());
    assert!(profile.insert('i', SymbolEntry::Independent(String::from("i"))).is_ok());
    assert!(profile.insert('I', SymbolEntry::Independent(String::from("ī"))).is_ok());
    assert!(profile.insert('A', SymbolEntry::Independent(String::from("ai"))).is_ok());
    assert!(profile.add_killer('-').is_ok());
    profile
}

#[test]
fn empty_profile_writes_every_text_unchanged() {
    let profile = ScriptProfile::new("empty");
    for text in ["", "abc", "क्ष", "తెలుగు", " \t\n", "\u{0}\u{10ffff}"] {
        assert_eq!(profile.transliterate(text), text);
    }
}

#[test]
fn rewrite_chars_agrees_with_transliterate() {
    let profile = small_script();
    for text in ["", "k", "ki", "k-s", "xkIy", "kAk-"] {
        let chars: Vec<char> = text.chars().collect();
        assert_eq!(profile.rewrite_chars(&chars), profile.transliterate(text));
    }
}

#[test]
fn consonant_alone_and_at_the_end_is_written_in_full() {
    let profile = small_script();
    assert_eq!(profile.transliterate("k"), "ka");
    assert_eq!(profile.transliterate("t"), "ṭha");
    assert_eq!(profile.transliterate("kt"), "kaṭha");
    assert_eq!(profile.transliterate("ik"), "ika");
}

#[test]
fn consonant_before_a_sign_loses_its_last_character() {
    let profile = small_script();
    assert_eq!(profile.transliterate("ki"), "ki");
    assert_eq!(profile.transliterate("kI"), "kī");
    assert_eq!(profile.transliterate("ti"), "ṭhi");
    assert_eq!(profile.transliterate("si"), "ṣi");
}

#[test]
fn consonant_before_a_killer_loses_its_last_character() {
    let profile = small_script();
    assert_eq!(profile.transliterate("k-"), "k");
    assert_eq!(profile.transliterate("t-"), "ṭh");
    assert_eq!(profile.transliterate("k-s"), "kṣa");
    assert_eq!(profile.transliterate("k-s-t-"), "kṣṭh");
}

#[test]
fn consonant_before_anything_else_keeps_its_inherent_vowel() {
    let profile = small_script();
    assert_eq!(profile.transliterate("kA"), "kaai");
    assert_eq!(profile.transliterate("kx"), "kax");
    assert_eq!(profile.transliterate("k "), "ka ");
    assert_eq!(profile.transliterate("kk"), "kaka");
}

#[test]
fn only_the_next_codepoint_is_looked_at() {
    let profile = small_script();
    assert_eq!(profile.transliterate("kxi"), "kaxi");
    assert_eq!(profile.transliterate("k i"), "ka i");
    assert_eq!(profile.transliterate("kx-"), "kax");
}

#[test]
fn killer_writes_nothing_wherever_it_stands() {
    let profile = small_script();
    assert_eq!(profile.transliterate("-"), "");
    assert_eq!(profile.transliterate("--"), "");
    assert_eq!(profile.transliterate("x-y"), "xy");
    assert_eq!(profile.transliterate("i-"), "i");
    assert_eq!(profile.transliterate("-k"), "ka");
}

#[test]
fn independent_text_is_written_as_it_is() {
    let profile = small_script();
    assert_eq!(profile.transliterate("i"), "i");
    assert_eq!(profile.transliterate("ii"), "ii");
    assert_eq!(profile.transliterate("Ai"), "aii");
    assert_eq!(profile.transliterate("iA"), "iai");
}

#[test]
fn unmapped_codepoint_is_written_unchanged_at_its_place() {
    let profile = small_script();
    let text = "kix-ks";
    let chars: Vec<char> = text.chars().collect();
    let at = 2;
    let before: String = chars[..at].iter().collect();
    let after: String = chars[at + 1..].iter().collect();
    let mut expected = profile.transliterate(&before);
    expected.push(chars[at]);
    expected.push_str(&profile.transliterate(&after));
    assert_eq!(profile.transliterate(text), expected);
    assert_eq!(profile.transliterate(text), "kixkaṣa");
}

#[test]
fn conjunct_is_written_as_one_unit_and_takes_two_codepoints() {
    let mut profile = small_script();
    profile.insert_conjunct('k', 's', "kṣa");
    assert_eq!(profile.transliterate("ks"), "kṣa");
    assert_eq!(profile.transliterate("ksks"), "kṣakṣa");
    assert_eq!(profile.transliterate("kks"), "kakṣa");
    assert_eq!(profile.transliterate("ksk"), "kṣaka");
    assert_eq!(profile.transliterate("sk"), "ṣaka");
}

#[test]
fn conjunct_comes_before_every_other_rule() {
    let mut profile = small_script();
    profile.insert_conjunct('k', 'i', "Q");
    profile.insert_conjunct('-', 'k', "R");
    profile.insert_conjunct('x', 'y', "Z");
    assert_eq!(profile.transliterate("ki"), "Q");
    assert_eq!(profile.transliterate("-k"), "R");
    assert_eq!(profile.transliterate("xy"), "Z");
    assert_eq!(profile.transliterate("k-k"), "kR");
    assert_eq!(profile.transliterate("x"), "x");
    assert_eq!(profile.transliterate("yx"), "yx");
}

#[test]
fn conjunct_does_not_hide_the_codepoint_after_it() {
    let mut profile = small_script();
    profile.insert_conjunct('k', 's', "kṣa");
    assert_eq!(profile.transliterate("ksi"), "kṣai");
    assert_eq!(profile.transliterate("ks-"), "kṣa");
}

#[test]
fn writing_twice_changes_nothing_more_when_output_is_foreign() {
    let mut profile = ScriptProfile::new("closed");
    assert!(profile.insert('क', SymbolEntry::ConsonantSyllable(String::from("ka"))).is_ok());
    assert!(profile.insert('ि', SymbolEntry::Independent(String::from("i"))).is_ok());
    assert!(profile.add_killer('्').is_ok());
    for text in ["कि", "क्क", "xक y", ""] {
        let once = profile.transliterate(text);
        assert_eq!(profile.transliterate(&once), once);
    }
}

#[test]
fn long_text_is_written_codepoint_by_codepoint() {
    let profile = small_script();
    let text: String = "ki".repeat(5000);
    let expected: String = "ki".repeat(5000);
    assert_eq!(profile.transliterate(&text), expected);
    let text: String = "k-".repeat(5000);
    let expected: String = "k".repeat(5000);
    assert_eq!(profile.transliterate(&text), expected);
}
