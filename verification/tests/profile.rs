use indic_iast::profile::CharClass;
use indic_iast::profile::ProfileError;
use indic_iast::profile::ScriptProfile;
use indic_iast::symbol::SymbolEntry;

fn sample_profile() -> ScriptProfile {
    let mut profile = ScriptProfile::new("sample");
    assert_eq!(profile.insert('k', SymbolEntry::ConsonantSyllable(String::from("ka"))), Ok(()));
    assert_eq!(profile.insert('t', SymbolEntry::ConsonantSyllable(String::from("tha"))), Ok(()));
    assert_eq!(profile.insert('i', SymbolEntry::Independent(String::from("i"))), Ok(()));
    assert_eq!(profile.insert('A', SymbolEntry::Independent(String::from("ai"))), Ok(()));
    assert_eq!(profile.insert('0', SymbolEntry::Independent(String::new())), Ok(()));
    assert_eq!(profile.add_killer('-'), Ok(()));
    profile
}

#[test]
fn new_profile_has_its_name_and_knows_nothing() {
    let profile = ScriptProfile::new("sample");
    assert_eq!(profile.name(), "sample");
    assert_eq!(profile.lookup('k'), None);
    assert!(!profile.is_killer('k'));
    assert_eq!(profile.conjunct('k', 's'), None);
    assert_eq!(profile.classify('k'), CharClass::Unmapped);
    assert!(!profile.suppresses('k'));
    profile.well_formed();
}

#[test]
fn lookup_gives_what_was_entered() {
    let profile = sample_profile();
    assert_eq!(profile.lookup('k'), Some(&SymbolEntry::ConsonantSyllable(String::from("ka"))));
    assert_eq!(profile.lookup('i'), Some(&SymbolEntry::Independent(String::from("i"))));
    assert_eq!(profile.lookup('0'), Some(&SymbolEntry::Independent(String::new())));
    assert_eq!(profile.lookup('x'), None);
    assert_eq!(profile.lookup('-'), None);
    assert_eq!(profile.lookup('K'), None);
}

#[test]
fn insert_replaces_what_the_codepoint_stood_for() {
    let mut profile = sample_profile();
    assert_eq!(profile.insert('k', SymbolEntry::Independent(String::from("q"))), Ok(()));
    assert_eq!(profile.lookup('k'), Some(&SymbolEntry::Independent(String::from("q"))));
    assert_eq!(profile.lookup('t'), Some(&SymbolEntry::ConsonantSyllable(String::from("tha"))));
    assert_eq!(profile.classify('k'), CharClass::VowelSign);
}

#[test]
fn insert_refuses_a_syllable_without_inherent_vowel() {
    let mut profile = sample_profile();
    assert_eq!(
        profile.insert('g', SymbolEntry::ConsonantSyllable(String::from("g"))),
        Err(ProfileError::InvalidSyllable)
    );
    assert_eq!(
        profile.insert('g', SymbolEntry::ConsonantSyllable(String::new())),
        Err(ProfileError::InvalidSyllable)
    );
    assert_eq!(
        profile.insert('g', SymbolEntry::ConsonantSyllable(String::from("gā"))),
        Err(ProfileError::InvalidSyllable)
    );
    assert_eq!(
        profile.insert('g', SymbolEntry::ConsonantSyllable(String::from("gA"))),
        Err(ProfileError::InvalidSyllable)
    );
    assert_eq!(profile.lookup('g'), None);
    assert_eq!(
        profile.insert('k', SymbolEntry::ConsonantSyllable(String::from("k"))),
        Err(ProfileError::InvalidSyllable)
    );
    assert_eq!(profile.lookup('k'), Some(&SymbolEntry::ConsonantSyllable(String::from("ka"))));
}

#[test]
fn insert_accepts_the_inherent_vowel_alone_as_a_syllable() {
    let mut profile = sample_profile();
    assert_eq!(profile.insert('g', SymbolEntry::ConsonantSyllable(String::from("a"))), Ok(()));
    assert_eq!(profile.classify('g'), CharClass::Consonant);
    assert_eq!(profile.transliterate("g"), "a");
    assert_eq!(profile.transliterate("gi"), "i");
}

#[test]
fn insert_refuses_a_text_for_a_vowel_killer() {
    let mut profile = sample_profile();
    assert_eq!(
        profile.insert('-', SymbolEntry::Independent(String::from("x"))),
        Err(ProfileError::KillerHasOutput)
    );
    assert_eq!(
        profile.insert('-', SymbolEntry::ConsonantSyllable(String::from("xa"))),
        Err(ProfileError::KillerHasOutput)
    );
    assert_eq!(profile.lookup('-'), None);
    assert!(profile.is_killer('-'));
}

#[test]
fn an_invalid_syllable_is_named_before_the_vowel_killer() {
    let mut profile = sample_profile();
    assert_eq!(
        profile.insert('-', SymbolEntry::ConsonantSyllable(String::from("x"))),
        Err(ProfileError::InvalidSyllable)
    );
}

#[test]
fn insert_accepts_the_empty_text_for_a_vowel_killer() {
    let mut profile = sample_profile();
    assert_eq!(profile.insert('-', SymbolEntry::Independent(String::new())), Ok(()));
    assert_eq!(profile.lookup('-'), Some(&SymbolEntry::Independent(String::new())));
    assert_eq!(profile.classify('-'), CharClass::VowelKiller);
    assert_eq!(profile.transliterate("k-k"), "kka");
}

#[test]
fn add_killer_refuses_a_codepoint_with_a_text() {
    let mut profile = sample_profile();
    assert_eq!(profile.add_killer('k'), Err(ProfileError::KillerHasOutput));
    assert_eq!(profile.add_killer('i'), Err(ProfileError::KillerHasOutput));
    assert!(!profile.is_killer('k'));
    assert!(!profile.is_killer('i'));
    assert_eq!(profile.classify('k'), CharClass::Consonant);
}

#[test]
fn add_killer_accepts_a_codepoint_with_the_empty_text() {
    let mut profile = sample_profile();
    assert_eq!(profile.add_killer('0'), Ok(()));
    assert!(profile.is_killer('0'));
    assert_eq!(profile.classify('0'), CharClass::VowelKiller);
}

#[test]
fn add_killer_accepts_several_and_repeats() {
    let mut profile = sample_profile();
    assert_eq!(profile.add_killer('='), Ok(()));
    assert_eq!(profile.add_killer('='), Ok(()));
    assert!(profile.is_killer('-'));
    assert!(profile.is_killer('='));
    assert!(!profile.is_killer('+'));
    assert_eq!(profile.transliterate("k-k=k"), "kkka");
}

#[test]
fn classify_tells_the_five_classes_apart() {
    let profile = sample_profile();
    assert_eq!(profile.classify('k'), CharClass::Consonant);
    assert_eq!(profile.classify('t'), CharClass::Consonant);
    assert_eq!(profile.classify('i'), CharClass::VowelSign);
    assert_eq!(profile.classify('A'), CharClass::Vowel);
    assert_eq!(profile.classify('0'), CharClass::Vowel);
    assert_eq!(profile.classify('-'), CharClass::VowelKiller);
    assert_eq!(profile.classify('x'), CharClass::Unmapped);
    assert_eq!(profile.classify(' '), CharClass::Unmapped);
}

#[test]
fn suppresses_holds_of_signs_and_killers_only() {
    let profile = sample_profile();
    assert!(profile.suppresses('i'));
    assert!(profile.suppresses('-'));
    assert!(!profile.suppresses('k'));
    assert!(!profile.suppresses('A'));
    assert!(!profile.suppresses('0'));
    assert!(!profile.suppresses('x'));
}

#[test]
fn conjunct_gives_the_text_of_the_pair_in_its_order() {
    let mut profile = sample_profile();
    profile.insert_conjunct('k', 't', "kta");
    assert_eq!(profile.conjunct('k', 't'), Some("kta"));
    assert_eq!(profile.conjunct('t', 'k'), None);
    assert_eq!(profile.conjunct('k', 'k'), None);
    profile.insert_conjunct('k', 't', "KT");
    assert_eq!(profile.conjunct('k', 't'), Some("KT"));
    profile.insert_conjunct('\u{10ffff}', '\u{10ffff}', "top");
    assert_eq!(profile.conjunct('\u{10ffff}', '\u{10ffff}'), Some("top"));
    assert_eq!(profile.conjunct('\u{10fffe}', '\u{10ffff}'), None);
    profile.insert_conjunct('\0', '\u{10ffff}', "edge");
    assert_eq!(profile.conjunct('\0', '\u{10ffff}'), Some("edge"));
    assert_eq!(profile.conjunct('\u{1}', '\0'), None);
}
