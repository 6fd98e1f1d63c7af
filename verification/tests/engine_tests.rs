use std::time::{SystemTime, UNIX_EPOCH};
use wordguess::errors::GameError;
use wordguess::hint::produce_hint;
use wordguess::question::Question;
use wordguess::session::{not_too_early, GameSession, HintOutcome, MIN_PAUSE_MS};
use wordguess::text::replace_markers;

fn q(answer: &str, score: i64) -> Question {
    Question::new("визначення".to_string(), answer.to_string(), score)
}

#[test]
fn not_yet_test() {
    let now_ms = SystemTime::now()
        .duration_since(UNIX_EPOCH)
        .unwrap()
        .as_millis() as u64;
    let one_min_in_the_past = now_ms - 61_000;
    assert!(not_too_early(now_ms, one_min_in_the_past));
    assert!(!not_too_early(now_ms, now_ms));
}

#[test]
fn bold_test() {
    let res = replace_markers("Те саме, що [B]заванта́жувати[/B]", "**");
    assert_eq!(res, "Те саме, що **заванта́жувати**");
}

#[test]
fn hint_masks_inner_characters() {
    let hint = produce_hint(&q("замок", 1)).expect("answer long enough");
    assert_eq!(hint, "з◾◾◾к");
    assert_eq!(hint.chars().count(), 5);
}

#[test]
fn hint_of_two_characters_reveals_both() {
    let hint = produce_hint(&q("ab", 1)).expect("answer long enough");
    assert_eq!(hint, "ab");
}

#[test]
fn hint_rejects_short_answers() {
    assert_eq!(produce_hint(&q("a", 1)), Err(GameError::InvalidAnswerLength));
    assert_eq!(produce_hint(&q("", 1)), Err(GameError::InvalidAnswerLength));
}

#[test]
fn matching_ignores_case_and_whitespace() {
    assert!(wordguess::matcher::matches("Answer is ЗАМОК today", "замок"));
    assert!(wordguess::matcher::matches("  з а м о к  ", "замок"));
    assert!(!wordguess::matcher::matches("жодної відповіді", "замок"));
}

#[test]
fn matching_accepts_answer_inside_longer_word() {
    // The documented limitation: a fragment of an unrelated token counts.
    assert!(wordguess::matcher::matches("замок-зажим", "замок"));
}

#[test]
fn cooldown_boundary() {
    let t: u64 = 5_000_000;
    assert!(!not_too_early(t + 59_999, t));
    assert!(!not_too_early(t + MIN_PAUSE_MS, t));
    assert!(not_too_early(t + 60_001, t));
}

#[test]
fn session_rejects_hint_during_cooldown() {
    let t: u64 = 1_000_000;
    let mut ses = GameSession::start(q("замок", 2), t);
    let out = ses.request_hint(t + 59_999);
    assert!(matches!(out, HintOutcome::TooEarly));
    assert!(!ses.hinted);
    assert_eq!(ses.last_draw_ms, t);
}

#[test]
fn session_issues_hint_after_cooldown() {
    let t: u64 = 1_000_000;
    let mut ses = GameSession::start(q("замок", 2), t);
    match ses.request_hint(t + 60_001) {
        HintOutcome::Issued(h) => assert_eq!(h, "з◾◾◾к"),
        other => panic!("expected a hint, got {:?}", other),
    }
    assert!(ses.hinted);
    assert_eq!(ses.last_draw_ms, t + 60_001);
    let again = ses.request_hint(t + 200_000);
    assert!(matches!(again, HintOutcome::AlreadyHinted));
}

#[test]
fn session_guards_short_answer_hints() {
    let t: u64 = 1_000_000;
    let mut ses = GameSession::start(q("я", 2), t);
    let out = ses.request_hint(t + 70_000);
    assert!(matches!(out, HintOutcome::InvalidAnswer));
    assert!(!ses.hinted);
}

#[test]
fn installing_a_question_resets_hint_and_timer() {
    let t: u64 = 1_000_000;
    let mut ses = GameSession::start(q("замок", 2), t);
    match ses.request_hint(t + 70_000) {
        HintOutcome::Issued(_) => {}
        other => panic!("expected a hint, got {:?}", other),
    }
    assert!(ses.hinted);
    ses.install_question(q("вікно", 1), t + 140_000);
    assert!(!ses.hinted);
    assert_eq!(ses.last_draw_ms, t + 140_000);
    assert_eq!(ses.current.answer, "вікно");
}
