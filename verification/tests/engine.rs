use kanikani::review::ReviewAction;
use kanikani::review::ReviewSession;
use kanikani::subject::CharacterImage;
use kanikani::subject::CharacterImageMetadata;
use kanikani::subject::KanaVocabularyData;
use kanikani::subject::KanjiData;
use kanikani::subject::Meaning;
use kanikani::subject::RadicalData;
use kanikani::subject::Reading;
use kanikani::subject::Subject;
use kanikani::subject::SubjectData;
use kanikani::subject::VocabularyData;
use kanikani::validate::check_meaning;
use kanikani::validate::check_reading;

fn meaning(text: &str) -> Meaning {
    Meaning { meaning: text.to_string(), primary: Some(true), accepted_answer: Some(true) }
}

fn reading(text: &str) -> Reading {
    Reading { reading: text.to_string(), primary: true, accepted_answer: true, type_: None }
}

fn radical_subject(id: u64, meanings: Vec<Meaning>, characters: Option<&str>) -> Subject {
    Subject {
        id,
        url: String::new(),
        data: SubjectData::Radical(RadicalData {
            amalgamation_subject_ids: Vec::new(),
            auxiliary_meanings: Vec::new(),
            characters: characters.map(|c| c.to_string()),
            character_images: vec![CharacterImage {
                url: "https://example.invalid/radical.svg".to_string(),
                content_type: "image/svg+xml".to_string(),
                metadata: CharacterImageMetadata {
                    inline_styles: Some(true),
                    color: None,
                    dimensions: None,
                    style_name: None,
                },
            }],
            document_url: String::new(),
            lesson_position: 0,
            level: 1,
            meanings,
            meaning_mnemonic: String::new(),
            slug: String::new(),
            spaced_repetition_system_id: 1,
        }),
    }
}

fn kanji_subject(id: u64, characters: &str, meanings: Vec<Meaning>, readings: Vec<Reading>) -> Subject {
    Subject {
        id,
        url: String::new(),
        data: SubjectData::Kanji(KanjiData {
            amalgamation_subject_ids: Vec::new(),
            auxiliary_meanings: Vec::new(),
            characters: characters.to_string(),
            component_subject_ids: Vec::new(),
            document_url: String::new(),
            lesson_position: 0,
            level: 1,
            meanings,
            meaning_hint: None,
            meaning_mnemonic: String::new(),
            readings,
            reading_mnemonic: String::new(),
            reading_hint: None,
            slug: String::new(),
            visually_similar_subject_ids: Vec::new(),
            spaced_repetition_system_id: 1,
        }),
    }
}

fn vocabulary_subject(
    id: u64,
    characters: &str,
    meanings: Vec<Meaning>,
    readings: Vec<Reading>,
) -> Subject {
    Subject {
        id,
        url: String::new(),
        data: SubjectData::Vocabulary(VocabularyData {
            auxiliary_meanings: Vec::new(),
            characters: characters.to_string(),
            component_subject_ids: Vec::new(),
            context_sentences: Vec::new(),
            document_url: String::new(),
            lesson_position: 0,
            level: 1,
            meanings,
            meaning_mnemonic: String::new(),
            parts_of_speech: Vec::new(),
            pronunciation_audios: Vec::new(),
            readings,
            reading_mnemonic: String::new(),
            slug: String::new(),
            spaced_repetition_system_id: 1,
        }),
    }
}

fn kana_vocabulary_subject(id: u64, characters: &str, meanings: Vec<Meaning>) -> Subject {
    Subject {
        id,
        url: String::new(),
        data: SubjectData::KanaVocabulary(KanaVocabularyData {
            level: 1,
            slug: String::new(),
            document_url: String::new(),
            characters: characters.to_string(),
            meanings,
            auxiliary_meanings: Vec::new(),
            parts_of_speech: Vec::new(),
            meaning_mnemonic: String::new(),
            context_sentences: Vec::new(),
            pronunciation_audios: Vec::new(),
            lesson_position: 0,
            spaced_repetition_system_id: 1,
        }),
    }
}

/// Checks the session invariant at run time: every active item still has
/// a phase to answer, and the submissions plus the active items carry one
/// assignment id each from the initial set.
fn assert_session_invariant(session: &ReviewSession, initial_aids: &[u64]) {
    for item in session.items.iter() {
        assert!(item.needs_meaning || item.needs_reading);
    }
    let mut aids: Vec<u64> = session.submitted.iter().map(|s| s.assignment_id).collect();
    aids.extend(session.items.iter().map(|it| it.assignment_id));
    assert_eq!(aids, initial_aids);
}

#[test]
fn test_check_meaning_is_case_and_whitespace_insensitive() {
    let subject = vocabulary_subject(1, "犬", vec![meaning("Dog")], vec![reading("いぬ")]);
    assert!(check_meaning(&subject, " Dog "));
    assert!(check_meaning(&subject, "dog"));
    assert!(check_meaning(&subject, "DOG"));
    assert!(!check_meaning(&subject, "cat"));
    assert!(!check_meaning(&subject, ""));
}

#[test]
fn test_check_meaning_any_accepted_meaning() {
    let subject = kanji_subject(
        2,
        "犬",
        vec![meaning("Dog"), meaning("Hound")],
        vec![reading("いぬ")],
    );
    assert!(check_meaning(&subject, "hound"));
    assert!(check_meaning(&subject, "dog"));
    assert!(!check_meaning(&subject, "wolf"));
}

#[test]
fn test_check_reading_accepts_either_script() {
    let subject = vocabulary_subject(3, "猫", vec![meaning("Cat")], vec![reading("ねこ")]);
    assert!(check_reading(&subject, "ねこ"));
    assert!(check_reading(&subject, "neko"));
    assert!(!check_reading(&subject, "inu"));
}

#[test]
fn test_check_reading_kana_vocabulary_uses_characters() {
    let subject = kana_vocabulary_subject(4, "すし", vec![meaning("Sushi")]);
    assert!(check_reading(&subject, "すし"));
    assert!(check_reading(&subject, "sushi"));
    assert!(!check_reading(&subject, "さけ"));
}

#[test]
fn test_check_reading_radical_accepts_nothing() {
    let subject = radical_subject(5, vec![meaning("Ground")], Some("一"));
    assert!(!check_reading(&subject, "いち"));
    assert!(!check_reading(&subject, ""));
}

#[test]
fn test_review_session_both_answers_first_try() {
    let mut session = ReviewSession::new(vec![(10, 1)]);
    let subject = vocabulary_subject(1, "猫", vec![meaning("Cat")], vec![reading("ねこ")]);

    assert!(!session.is_finished());
    assert_eq!(session.current_subject_id(), 1);
    assert!(matches!(session.current_action(&subject), ReviewAction::AskMeaning));
    let outcome = session.answer_current(&subject, "cat");
    assert!(outcome.correct);
    assert!(outcome.submission.is_none());

    assert!(matches!(session.current_action(&subject), ReviewAction::AskReading));
    let outcome = session.answer_current(&subject, "neko");
    assert!(outcome.correct);
    let submission = outcome.submission.expect("finished item must be submitted");
    assert_eq!(submission.assignment_id, 10);
    assert_eq!(submission.incorrect_meaning_answers, 0);
    assert_eq!(submission.incorrect_reading_answers, 0);
    assert!(session.is_finished());
}

#[test]
fn test_review_session_end_to_end_two_items() {
    let mut session = ReviewSession::new(vec![(10, 1), (20, 2)]);
    let first = vocabulary_subject(1, "猫", vec![meaning("Cat")], vec![reading("ねこ")]);
    let second = kanji_subject(2, "犬", vec![meaning("Dog")], vec![reading("いぬ")]);
    let initial_aids = [10, 20];
    assert_session_invariant(&session, &initial_aids);

    // First item: meaning and reading both right on the first try.
    assert!(matches!(session.current_action(&first), ReviewAction::AskMeaning));
    assert!(session.answer_current(&first, "cat").correct);
    assert!(matches!(session.current_action(&first), ReviewAction::AskReading));
    let outcome = session.answer_current(&first, "neko");
    assert!(outcome.correct);
    assert_eq!(outcome.submission.unwrap().assignment_id, 10);
    assert_session_invariant(&session, &initial_aids);

    // Second item: one wrong meaning answer, then right answers.
    assert_eq!(session.current_subject_id(), 2);
    assert!(matches!(session.current_action(&second), ReviewAction::AskMeaning));
    let wrong = session.answer_current(&second, "bird");
    assert!(!wrong.correct);
    assert!(wrong.submission.is_none());
    assert_session_invariant(&session, &initial_aids);

    // The meaning prompt repeats after a wrong answer.
    assert!(matches!(session.current_action(&second), ReviewAction::AskMeaning));
    assert!(session.answer_current(&second, "dog").correct);
    assert!(matches!(session.current_action(&second), ReviewAction::AskReading));
    let outcome = session.answer_current(&second, "いぬ");
    assert!(outcome.correct);
    let submission = outcome.submission.unwrap();
    assert_eq!(submission.assignment_id, 20);
    assert_eq!(submission.incorrect_meaning_answers, 1);
    assert_eq!(submission.incorrect_reading_answers, 0);

    assert!(session.is_finished());
    assert_eq!(session.submissions().len(), 2);
    assert_eq!(session.submissions()[0].assignment_id, 10);
    assert_eq!(session.submissions()[1].assignment_id, 20);
    assert_session_invariant(&session, &initial_aids);
}

#[test]
fn test_review_session_radical_never_needs_reading() {
    let mut session = ReviewSession::new(vec![(7, 9)]);
    let subject = radical_subject(9, vec![meaning("Ground")], Some("一"));

    // Before the subject is known, both phases are pending.
    assert!(session.items[0].needs_reading);
    // On first inspection the radical's reading requirement is dropped.
    assert!(matches!(session.current_action(&subject), ReviewAction::AskMeaning));
    assert!(!session.items[0].needs_reading);

    // A wrong meaning answer keeps the flag dropped.
    assert!(!session.answer_current(&subject, "sky").correct);
    assert!(matches!(session.current_action(&subject), ReviewAction::AskMeaning));
    assert!(!session.items[0].needs_reading);

    // A correct meaning answer finishes the item: no reading prompt ever.
    let outcome = session.answer_current(&subject, "ground");
    assert!(outcome.correct);
    let submission = outcome.submission.expect("radical finishes after its meaning");
    assert_eq!(submission.assignment_id, 7);
    assert_eq!(submission.incorrect_meaning_answers, 1);
    assert_eq!(submission.incorrect_reading_answers, 0);
    assert!(session.is_finished());
}

#[test]
fn test_review_session_radical_discovered_late() {
    // If the subject repository reports a subject as a radical only after
    // its meaning was already answered, dropping the reading requirement
    // leaves nothing to ask: the item is finalized by the inspection
    // itself.
    let mut session = ReviewSession::new(vec![(40, 6)]);
    let as_kanji = kanji_subject(6, "水", vec![meaning("Water")], vec![reading("みず")]);
    session.current_action(&as_kanji);
    assert!(session.answer_current(&as_kanji, "water").correct);
    assert_eq!(session.submissions().len(), 0);

    let as_radical = radical_subject(6, vec![meaning("Water")], Some("水"));
    match session.current_action(&as_radical) {
        ReviewAction::Finalize(submission) => {
            assert_eq!(submission.assignment_id, 40);
            assert_eq!(submission.incorrect_meaning_answers, 0);
            assert_eq!(submission.incorrect_reading_answers, 0);
        }
        other => panic!("expected the item to be finalized, got {:?}", other),
    }
    assert!(session.is_finished());
    assert_eq!(session.submissions().len(), 1);
}

#[test]
fn test_review_session_image_backed_radical() {
    let mut session = ReviewSession::new(vec![(8, 11)]);
    let subject = radical_subject(11, vec![meaning("Gun")], None);
    assert!(subject.characters().is_none());
    assert!(matches!(session.current_action(&subject), ReviewAction::AskMeaning));
    let outcome = session.answer_current(&subject, "gun");
    assert!(outcome.correct);
    assert!(outcome.submission.is_some());
}

#[test]
fn test_review_session_abort_keeps_earlier_submissions() {
    // A fetch failure mid-session makes the application stop the loop;
    // items finished earlier stay submitted, the item in flight is not.
    let mut session = ReviewSession::new(vec![(10, 1), (20, 2)]);
    let first = vocabulary_subject(1, "猫", vec![meaning("Cat")], vec![reading("ねこ")]);

    session.current_action(&first);
    session.answer_current(&first, "cat");
    session.current_action(&first);
    session.answer_current(&first, "ねこ");
    assert_eq!(session.submissions().len(), 1);

    // Fetching subject 2 fails here: the loop stops, nothing more is
    // recorded, and the first submission stands.
    assert_eq!(session.current_subject_id(), 2);
    assert_eq!(session.submissions().len(), 1);
    assert_eq!(session.submissions()[0].assignment_id, 10);
    assert_eq!(session.remaining(), 1);
    assert_session_invariant(&session, &[10, 20]);
}

#[test]
fn test_review_session_duplicate_subject_keeps_first_pair() {
    let session = ReviewSession::new(vec![(1, 7), (2, 7), (3, 8)]);
    assert_eq!(session.items.len(), 2);
    assert_eq!(session.items[0].assignment_id, 1);
    assert_eq!(session.items[0].subject_id, 7);
    assert_eq!(session.items[1].assignment_id, 3);
    assert_eq!(session.items[1].subject_id, 8);
}

#[test]
fn test_review_session_empty_is_finished() {
    let session = ReviewSession::new(Vec::new());
    assert!(session.is_finished());
    assert_eq!(session.remaining(), 0);
    assert_eq!(session.submissions().len(), 0);
}

#[test]
fn test_review_session_wrong_reading_increments_counter() {
    let mut session = ReviewSession::new(vec![(30, 3)]);
    let subject = vocabulary_subject(3, "猫", vec![meaning("Cat")], vec![reading("ねこ")]);
    session.current_action(&subject);
    session.answer_current(&subject, "cat");
    session.current_action(&subject);
    assert!(!session.answer_current(&subject, "inu").correct);
    session.current_action(&subject);
    assert!(!session.answer_current(&subject, "tori").correct);
    session.current_action(&subject);
    let outcome = session.answer_current(&subject, "neko");
    assert!(outcome.correct);
    let submission = outcome.submission.unwrap();
    assert_eq!(submission.incorrect_meaning_answers, 0);
    assert_eq!(submission.incorrect_reading_answers, 2);
}

#[test]
fn test_subject_accessors() {
    let vocab = vocabulary_subject(3, "猫", vec![meaning("Cat")], vec![reading("ねこ")]);
    assert!(!vocab.is_radical());
    assert_eq!(vocab.characters().unwrap(), "猫");
    assert_eq!(vocab.meanings().len(), 1);
    assert_eq!(vocab.reading_strings(), vec!["ねこ".to_string()]);

    let kana = kana_vocabulary_subject(4, "すし", vec![meaning("Sushi")]);
    assert_eq!(kana.reading_strings(), vec!["すし".to_string()]);

    let radical = radical_subject(5, vec![meaning("Ground")], Some("一"));
    assert!(radical.is_radical());
    assert_eq!(radical.characters().unwrap(), "一");
    assert!(radical.reading_strings().is_empty());

    let pictured = radical_subject(6, vec![meaning("Gun")], None);
    assert!(pictured.characters().is_none());
}
