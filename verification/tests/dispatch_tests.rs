use wordguess::catalog::{CorpusRow, QuestionCatalog};
use wordguess::dispatch::{Effect, GameState};
use wordguess::errors::GameError;
use wordguess::ledger::ScoreLedger;
use wordguess::messages::help_line;
use wordguess::question::Question;
use wordguess::router::{locale_of_channel, route, Command, Locale};

fn uk_catalog() -> QuestionCatalog {
    let rows = vec![CorpusRow {
        word: "замок".to_string(),
        text: "фортеця".to_string(),
        weight: 3,
    }];
    QuestionCatalog::from_weighted_rows(&rows)
}

fn en_catalog() -> QuestionCatalog {
    QuestionCatalog {
        questions: vec![Question::new("a dwelling".to_string(), "house".to_string(), 1)],
    }
}

fn fresh_state(now_ms: u64) -> GameState {
    GameState::new(uk_catalog(), en_catalog(), ScoreLedger::new(), now_ms)
        .expect("catalogs are non-empty")
}

fn sent_text(e: &Effect) -> &str {
    match e {
        Effect::Send(s) => s.as_str(),
        other => panic!("expected a text reply, got {:?}", other),
    }
}

#[test]
fn locale_routing() {
    assert_eq!(locale_of_channel("general-en"), Locale::En);
    assert_eq!(locale_of_channel("завдання-uk"), Locale::Uk);
    assert_eq!(locale_of_channel("random"), Locale::Unknown);
}

#[test]
fn unknown_channel_messages_are_ignored() {
    let mut st = fresh_state(1_000_000);
    let effects = st.handle_message("random", "замок", 9, false, 2_000_000);
    assert_eq!(effects.len(), 0);
    assert_eq!(st.ledger.get_score(9), (0, 0, 0));
    assert!(!st.uk.hinted);
    assert_eq!(st.uk.last_draw_ms, 1_000_000);
    assert_eq!(st.en.last_draw_ms, 1_000_000);
}

#[test]
fn command_aliases() {
    assert_eq!(route("!далі", Locale::Uk), Command::Skip);
    assert_eq!(route("!відповідь", Locale::Uk), Command::Skip);
    assert_eq!(route("!next", Locale::Uk), Command::Skip);
    assert_eq!(route("!питання", Locale::Uk), Command::RepeatQuestion);
    assert_eq!(route("!п", Locale::Uk), Command::RepeatQuestion);
    assert_eq!(route("!хінт", Locale::Uk), Command::RequestHint);
    assert_eq!(route("!підказка", Locale::Uk), Command::RequestHint);
    assert_eq!(route("!рейтинг", Locale::Uk), Command::ShowScore);
    assert_eq!(route("!топ", Locale::Uk), Command::ShowLeaderboard);
    assert_eq!(route("!help", Locale::Uk), Command::Help);
    assert_eq!(route("!?", Locale::En), Command::Help);
    assert_eq!(route("!answer", Locale::En), Command::Skip);
    assert_eq!(route("!question", Locale::En), Command::RepeatQuestion);
    assert_eq!(route("!hint", Locale::En), Command::RequestHint);
    assert_eq!(route("!score", Locale::En), Command::ShowScore);
    assert_eq!(route("!top", Locale::En), Command::ShowLeaderboard);
    assert_eq!(route("!unknown", Locale::En), Command::Unrecognized);
    assert_eq!(route("just words", Locale::En), Command::SubmitAnswer);
}

#[test]
fn correct_answer_awards_and_redraws() {
    let mut st = fresh_state(1_000_000);
    let effects = st.handle_message("завдання-uk", "тут є замок десь", 7, false, 2_000_000);
    assert_eq!(st.ledger.get_score(7), (3, 1, 1));
    assert!(!st.uk.hinted);
    assert_eq!(st.uk.last_draw_ms, 2_000_000);
    assert_eq!(st.uk.current.answer, "замок");
    assert_eq!(effects.len(), 2);
    assert_eq!(
        sent_text(&effects[0]),
        "Вірно <@7>. Відповідь замок. Загальний рейтинг: 3"
    );
    assert_eq!(sent_text(&effects[1]), "**фортеця** (5 літер) [+3]");
}

#[test]
fn correct_answer_in_derived_locale() {
    let mut st = fresh_state(1_000_000);
    let effects = st.handle_message("general-en", "the HOUSE wins", 11, false, 2_000_000);
    assert_eq!(st.ledger.get_score(11), (1, 1, 1));
    assert_eq!(effects.len(), 2);
    assert_eq!(
        sent_text(&effects[0]),
        "Correct <@11>. Answer is **house**. Your total score: 1"
    );
    assert_eq!(sent_text(&effects[1]), "**a dwelling** (5 letters) [1 point(s)]");
}

#[test]
fn wrong_answer_draws_negative_feedback() {
    let mut st = fresh_state(1_000_000);
    let effects = st.handle_message("завдання-uk", "не вгадав", 7, false, 2_000_000);
    assert_eq!(effects.len(), 1);
    assert!(matches!(effects[0], Effect::ReactNegative));
    assert_eq!(st.ledger.get_score(7), (0, 0, 0));
}

#[test]
fn wrong_answer_from_bot_is_silent() {
    let mut st = fresh_state(1_000_000);
    let effects = st.handle_message("завдання-uk", "не вгадав", 7, true, 2_000_000);
    assert_eq!(effects.len(), 0);
}

#[test]
fn skip_respects_cooldown() {
    let mut st = fresh_state(1_000_000);
    let early = st.handle_message("завдання-uk", "!далі", 7, false, 1_059_999);
    assert_eq!(early.len(), 1);
    assert!(matches!(early[0], Effect::ReactTimer));
    assert_eq!(st.uk.last_draw_ms, 1_000_000);
    let late = st.handle_message("завдання-uk", "!далі", 7, false, 1_060_001);
    assert_eq!(late.len(), 2);
    assert_eq!(sent_text(&late[0]), "замок");
    assert_eq!(sent_text(&late[1]), "**фортеця** (5 літер) [+3]");
    assert_eq!(st.uk.last_draw_ms, 1_060_001);
}

#[test]
fn hint_command_sends_obfuscated_answer() {
    let mut st = fresh_state(1_000_000);
    let effects = st.handle_message("завдання-uk", "!підказка", 7, false, 1_070_000);
    assert_eq!(effects.len(), 1);
    assert_eq!(sent_text(&effects[0]), "з◾◾◾к");
    assert!(st.uk.hinted);
    let again = st.handle_message("завдання-uk", "!підказка", 7, false, 1_200_000);
    assert_eq!(again.len(), 1);
    assert!(matches!(again[0], Effect::ReactStop));
}

#[test]
fn repeat_question_changes_nothing() {
    let mut st = fresh_state(1_000_000);
    let effects = st.handle_message("general-en", "!question", 7, false, 1_000_100);
    assert_eq!(effects.len(), 1);
    assert_eq!(sent_text(&effects[0]), "**a dwelling** (5 letters) [1 point(s)]");
    assert_eq!(st.en.last_draw_ms, 1_000_000);
}

#[test]
fn score_and_leaderboard_replies() {
    let mut st = fresh_state(1_000_000);
    let none = st.handle_message("general-en", "!score", 7, false, 1_000_100);
    assert_eq!(sent_text(&none[0]), "<@7> has not scored yet...");
    st.handle_message("general-en", "my house here", 7, false, 1_000_200);
    let some = st.handle_message("general-en", "!score", 7, false, 1_000_300);
    assert_eq!(sent_text(&some[0]), "<@7> have 1 point and is 1 out of 1");
    st.ledger.increment_score(1, 50);
    st.ledger.increment_score(2, 50);
    st.ledger.increment_score(3, 30);
    let top = st.handle_message("завдання-uk", "!топ", 7, false, 1_000_400);
    assert_eq!(
        sent_text(&top[0]),
        "1    |    <@1>    |    50\n2    |    <@2>    |    50\n3    |    <@3>    |    30\n4    |    <@7>    |    1\n"
    );
}

#[test]
fn help_reply_ends_with_word_count() {
    let mut st = fresh_state(1_000_000);
    let effects = st.handle_message("general-en", "!help", 7, false, 1_000_100);
    assert!(sent_text(&effects[0]).ends_with("Total words count: **1**"));
    assert!(help_line(Locale::En, 42).ends_with("Total words count: **42**"));
}

#[test]
fn unknown_command_is_ignored() {
    let mut st = fresh_state(1_000_000);
    let effects = st.handle_message("завдання-uk", "!невідомо", 7, false, 2_000_000);
    assert_eq!(effects.len(), 0);
    assert_eq!(st.uk.last_draw_ms, 1_000_000);
}

#[test]
fn question_reaction_issues_hint() {
    let mut st = fresh_state(1_000_000);
    let effects = st.handle_reaction("завдання-uk", "❓", 500, 500, 1_070_000);
    assert_eq!(effects.len(), 1);
    assert_eq!(sent_text(&effects[0]), "з◾◾◾к");
    assert!(st.uk.hinted);
}

#[test]
fn reactions_are_filtered() {
    let mut st = fresh_state(1_000_000);
    let wrong_emoji = st.handle_reaction("завдання-uk", "✅", 500, 500, 1_070_000);
    assert_eq!(wrong_emoji.len(), 0);
    let wrong_author = st.handle_reaction("завдання-uk", "❓", 501, 500, 1_070_000);
    assert_eq!(wrong_author.len(), 0);
    let too_early = st.handle_reaction("завдання-uk", "❓", 500, 500, 1_010_000);
    assert_eq!(too_early.len(), 0);
    assert!(!st.uk.hinted);
}

#[test]
fn empty_catalog_is_fatal_at_startup() {
    let empty = QuestionCatalog { questions: vec![] };
    assert!(empty.draw().is_err());
    match GameState::new(
        QuestionCatalog { questions: vec![] },
        en_catalog(),
        ScoreLedger::new(),
        0,
    ) {
        Err(e) => assert_eq!(e, GameError::EmptyCatalog),
        Ok(_) => panic!("an empty catalog must be refused"),
    }
}

#[test]
fn draw_returns_a_catalog_question() {
    let cat = uk_catalog();
    let q = cat.draw().expect("catalog is non-empty");
    assert_eq!(q.answer, "замок");
    assert_eq!(q.score, 3);
}
