use kanikani::assignment::Assignment;
use kanikani::assignment::AssignmentCollection;
use kanikani::assignment::AssignmentData;
use kanikani::assignment::Pages;
use kanikani::assignment::review_pairs;
use kanikani::channel::OutputChannel;
use kanikani::display_text;
use kanikani::lesson::LessonSession;
use kanikani::summary::LessonBlock;
use kanikani::summary::ReviewBlock;
use kanikani::summary::Summary;
use kanikani::summary::SummaryData;

fn summary(lessons: Vec<Vec<u64>>, reviews: Vec<Vec<u64>>) -> Summary {
    Summary {
        object: "report".to_string(),
        url: String::new(),
        data: SummaryData {
            lessons: lessons
                .into_iter()
                .map(|subject_ids| LessonBlock { subject_ids })
                .collect(),
            reviews: reviews
                .into_iter()
                .map(|subject_ids| ReviewBlock { subject_ids })
                .collect(),
        },
    }
}

fn assignment(id: u64, subject_id: u64) -> Assignment {
    Assignment {
        id,
        object: "assignment".to_string(),
        url: String::new(),
        data: AssignmentData {
            subject_id,
            subject_type: "vocabulary".to_string(),
            srs_stage: 1,
        },
    }
}

#[test]
fn test_summary_flattens_lesson_blocks_in_order() {
    let s = summary(vec![vec![1, 2], vec![], vec![3]], vec![vec![9]]);
    assert_eq!(s.get_available_lessons(), vec![1, 2, 3]);
    assert_eq!(s.get_available_reviews(), vec![9]);
}

#[test]
fn test_summary_empty_blocks() {
    let s = summary(Vec::new(), Vec::new());
    assert!(s.get_available_lessons().is_empty());
    assert!(s.get_available_reviews().is_empty());
}

#[test]
fn test_review_pairs_in_order() {
    let collection = AssignmentCollection {
        object: "collection".to_string(),
        url: String::new(),
        pages: Pages { per_page: 500, next_url: None, previous_url: None },
        total_count: 2,
        data: vec![assignment(10, 1), assignment(20, 2)],
    };
    assert_eq!(review_pairs(&collection), vec![(10, 1), (20, 2)]);
}

#[test]
fn test_lesson_session_walks_in_order() {
    let mut session = LessonSession::new(vec![1, 2, 3]);
    assert!(!session.is_finished());
    assert_eq!(session.current_subject_id(), 1);
    assert!(!session.handle_command(""));
    assert_eq!(session.current_subject_id(), 2);
    assert!(!session.handle_command("anything"));
    assert_eq!(session.current_subject_id(), 3);
    assert!(!session.handle_command(""));
    assert!(session.is_finished());
}

#[test]
fn test_lesson_session_quit_ends_early() {
    let mut session = LessonSession::new(vec![1, 2, 3]);
    assert!(!session.handle_command(""));
    assert!(session.handle_command("q"));
    // The cursor stays where it was; the caller ends the walk.
    assert_eq!(session.current_subject_id(), 2);
    assert!(!session.is_finished());
}

#[test]
fn test_lesson_session_quit_needs_exact_command() {
    let mut session = LessonSession::new(vec![1, 2]);
    assert!(!session.handle_command("quit"));
    assert!(session.handle_command("q"));
}

#[test]
fn test_lesson_session_empty_is_finished() {
    let session = LessonSession::new(Vec::new());
    assert!(session.is_finished());
}

#[test]
fn test_display_text_appends_to_transcript() {
    let mut channel = OutputChannel::new();
    display_text(&mut channel, "Starting review session with 2 items");
    display_text(&mut channel, "Correct!");
    assert_eq!(
        channel.lines,
        vec![
            "Starting review session with 2 items".to_string(),
            "Correct!".to_string(),
        ]
    );
}
