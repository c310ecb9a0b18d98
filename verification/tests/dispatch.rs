use indic_iast::script::Script;
use indic_iast::supported_scripts;
use indic_iast::transliterate;
use indic_iast::try_transliterate;
use indic_iast::TransliterationError;
use indic_iast::SUPPORTED_SCRIPTS;
use indic_iast::UNSUPPORTED_SCRIPT;

#[test]
fn supported_scripts_lists_the_nine_in_order() {
    assert_eq!(
        supported_scripts(),
        "devanagari,bengali,tamil,telugu,kannada,malayalam,gujarati,odia,punjabi"
    );
    assert_eq!(supported_scripts(), SUPPORTED_SCRIPTS);
}

#[test]
fn supported_scripts_splits_into_the_names_of_all_scripts() {
    let listed = supported_scripts();
    let names: Vec<&str> = listed.split(',').collect();
    let scripts = Script::all();
    assert_eq!(names.len(), scripts.len());
    for (name, script) in names.iter().zip(scripts.iter()) {
        assert_eq!(*name, script.name());
    }
}

#[test]
fn unknown_script_is_answered_with_the_sentinel() {
    assert_eq!(transliterate("anything", "klingon"), "Unsupported script");
    assert_eq!(transliterate("क", "klingon"), UNSUPPORTED_SCRIPT);
    assert_eq!(transliterate("", "klingon"), "Unsupported script");
}

#[test]
fn script_names_are_matched_letter_for_letter() {
    assert_eq!(transliterate("क", "Devanagari"), "Unsupported script");
    assert_eq!(transliterate("क", "DEVANAGARI"), "Unsupported script");
    assert_eq!(transliterate("क", " devanagari"), "Unsupported script");
    assert_eq!(transliterate("क", "devanagari "), "Unsupported script");
    assert_eq!(transliterate("क", "devanagar"), "Unsupported script");
    assert_eq!(transliterate("क", ""), "Unsupported script");
}

#[test]
fn lone_consonant_keeps_its_inherent_vowel() {
    assert_eq!(transliterate("क", "devanagari"), "ka");
}

#[test]
fn vowel_sign_takes_the_place_of_the_inherent_vowel() {
    assert_eq!(transliterate("कि", "devanagari"), "ki");
}

#[test]
fn virama_removes_the_inherent_vowel() {
    assert_eq!(transliterate("क्", "devanagari"), "k");
}

#[test]
fn two_consonants_keep_their_inherent_vowels() {
    assert_eq!(transliterate("कर", "devanagari"), "kara");
}

#[test]
fn consonant_cluster_is_joined_by_the_virama() {
    assert_eq!(transliterate("क्ष", "devanagari"), "kṣa");
}

#[test]
fn devanagari_words() {
    assert_eq!(transliterate("नमस्ते", "devanagari"), "namaste");
    assert_eq!(transliterate("भारत", "devanagari"), "bhārata");
    assert_eq!(transliterate("हिन्दी", "devanagari"), "hindī");
    assert_eq!(transliterate("अमर", "devanagari"), "amara");
}

#[test]
fn sign_of_two_characters_leaves_the_inherent_vowel() {
    assert_eq!(transliterate("कै", "devanagari"), "kaai");
    assert_eq!(transliterate("कौ", "devanagari"), "kaau");
    assert_eq!(transliterate("कँ", "devanagari"), "kam\u{310}");
}

#[test]
fn mark_of_one_character_takes_the_inherent_vowel() {
    assert_eq!(transliterate("कं", "devanagari"), "kṃ");
    assert_eq!(transliterate("कः", "devanagari"), "kḥ");
}

#[test]
fn vowel_letter_of_one_character_takes_the_inherent_vowel() {
    assert_eq!(transliterate("कइ", "devanagari"), "ki");
    assert_eq!(transliterate("कऐ", "devanagari"), "kaai");
}

#[test]
fn vowel_letter_is_written_whatever_follows() {
    assert_eq!(transliterate("अ", "devanagari"), "a");
    assert_eq!(transliterate("अि", "devanagari"), "ai");
    assert_eq!(transliterate("अ्", "devanagari"), "a");
}

#[test]
fn lone_virama_writes_nothing() {
    assert_eq!(transliterate("्", "devanagari"), "");
    assert_eq!(transliterate("a्b", "devanagari"), "ab");
}

#[test]
fn unmapped_codepoints_pass_through_at_their_place() {
    assert_eq!(transliterate("कxर", "devanagari"), "kaxra");
    assert_eq!(transliterate("क र", "devanagari"), "ka ra");
    assert_eq!(transliterate("१क२", "devanagari"), "१ka२");
    assert_eq!(transliterate("क\u{10ffff}", "devanagari"), "ka\u{10ffff}");
}

#[test]
fn empty_text_stays_empty() {
    assert_eq!(transliterate("", "devanagari"), "");
    assert_eq!(transliterate("", "bengali"), "");
    assert_eq!(transliterate("", "tamil"), "");
}

#[test]
fn roman_text_is_unchanged_by_every_script_with_a_table() {
    let samples = ["Hello, world! 123", "   ", "0123456789", "śāstra ṭīkā", "\t\n", "日本語"];
    for script in ["devanagari", "bengali", "tamil"] {
        for sample in samples {
            assert_eq!(transliterate(sample, script), sample);
        }
    }
}

#[test]
fn transliterating_twice_changes_nothing_more() {
    for (text, script) in [("नमस्ते भारत", "devanagari"), ("বাংলা", "bengali"), ("கமல", "tamil")] {
        let once = transliterate(text, script);
        assert_eq!(transliterate(&once, script), once);
    }
}

#[test]
fn other_scripts_pass_through_a_script_with_a_table() {
    assert_eq!(transliterate("ক", "devanagari"), "ক");
    assert_eq!(transliterate("क", "bengali"), "क");
    assert_eq!(transliterate("क", "tamil"), "क");
}

#[test]
fn bengali_text() {
    assert_eq!(transliterate("ক", "bengali"), "ka");
    assert_eq!(transliterate("কি", "bengali"), "ki");
    assert_eq!(transliterate("কর", "bengali"), "kara");
    assert_eq!(transliterate("বাংলা", "bengali"), "bāṃlā");
    assert_eq!(transliterate("আমি", "bengali"), "āmi");
}

#[test]
fn bengali_has_no_vowel_killer() {
    assert_eq!(transliterate("ক\u{9cd}", "bengali"), "ka\u{9cd}");
}

#[test]
fn tamil_text() {
    assert_eq!(transliterate("க", "tamil"), "ka");
    assert_eq!(transliterate("அ", "tamil"), "a");
    assert_eq!(transliterate("கமல", "tamil"), "kamala");
    assert_eq!(transliterate("கஇ", "tamil"), "ki");
    assert_eq!(transliterate("கஐ", "tamil"), "kaai");
}

#[test]
fn tamil_signs_are_not_in_the_table() {
    assert_eq!(transliterate("கி", "tamil"), "ka\u{bbf}");
    assert_eq!(transliterate("க்", "tamil"), "ka\u{bcd}");
}

#[test]
fn scripts_without_a_table_answer_with_their_sentence() {
    let expected = [
        ("telugu", "Telugu to IAST not fully implemented yet"),
        ("kannada", "Kannada to IAST not fully implemented yet"),
        ("malayalam", "Malayalam to IAST not fully implemented yet"),
        ("gujarati", "Gujarati to IAST not fully implemented yet"),
        ("odia", "Odia to IAST not fully implemented yet"),
        ("punjabi", "Punjabi to IAST not fully implemented yet"),
    ];
    for (script, sentence) in expected {
        for text in ["తెలుగు", "abc", " ", "क", "", "Unsupported script"] {
            assert_eq!(transliterate(text, script), sentence);
        }
    }
}

#[test]
fn try_transliterate_gives_the_text() {
    match try_transliterate("कि", "devanagari") {
        Ok(out) => assert_eq!(out, "ki"),
        Err(error) => panic!("unexpected error: {:?}", error),
    }
}

#[test]
fn try_transliterate_names_the_unsupported_script() {
    match try_transliterate("कि", "klingon") {
        Err(TransliterationError::UnsupportedScript(name)) => assert_eq!(name, "klingon"),
        other => panic!("unexpected result: {:?}", other),
    }
}

#[test]
fn try_transliterate_names_the_script_without_a_table() {
    match try_transliterate("కి", "telugu") {
        Err(TransliterationError::NotImplemented(script)) => assert_eq!(script, Script::Telugu),
        other => panic!("unexpected result: {:?}", other),
    }
    assert!(matches!(
        try_transliterate("", "punjabi"),
        Err(TransliterationError::NotImplemented(Script::Punjabi))
    ));
}

#[test]
fn error_messages_are_the_fixed_sentences() {
    assert_eq!(
        TransliterationError::UnsupportedScript(String::from("klingon")).message(),
        "Unsupported script"
    );
    assert_eq!(
        TransliterationError::NotImplemented(Script::Odia).message(),
        "Odia to IAST not fully implemented yet"
    );
}

#[test]
fn reply_is_the_message_of_the_error() {
    for (text, script) in [("क", "klingon"), ("क", "gujarati"), ("", "kannada")] {
        match try_transliterate(text, script) {
            Ok(out) => panic!("unexpected text: {}", out),
            Err(error) => assert_eq!(error.message(), transliterate(text, script)),
        }
    }
}

#[test]
fn every_identifier_answers_every_text() {
    let scripts = [
        "devanagari",
        "bengali",
        "tamil",
        "telugu",
        "kannada",
        "malayalam",
        "gujarati",
        "odia",
        "punjabi",
        "klingon",
        "",
    ];
    let texts = [
        "",
        " ",
        "\t\r\n",
        "0123456789",
        "abc",
        "क",
        "क्",
        "्",
        "ा",
        "क्षत्रिय ক্ষ க்ஷ mixed 42",
        "\u{0}",
        "\u{10ffff}",
        "\u{200d}\u{200c}",
        "e\u{301}",
    ];
    for script in scripts {
        for text in texts {
            let out = transliterate(text, script);
            match try_transliterate(text, script) {
                Ok(written) => assert_eq!(written, out),
                Err(error) => assert_eq!(error.message(), out),
            }
        }
    }
}

#[test]
fn answering_to_an_answer_gives_the_same_answer() {
    for script in ["devanagari", "bengali", "tamil", "telugu", "odia", "klingon"] {
        for text in ["", "क्षत्रिय", "বাংলা ভাষা", "கமல", "plain", "कँ कै"] {
            let once = transliterate(text, script);
            assert_eq!(transliterate(&once, script), once);
        }
    }
}
