use wordguess::ledger::ScoreLedger;

#[test]
fn increment_creates_then_accumulates() {
    let mut led = ScoreLedger::new();
    assert_eq!(led.increment_score(5, 4), 4);
    assert_eq!(led.increment_score(5, 3), 7);
    assert_eq!(led.increment_score(8, 1), 1);
    assert_eq!(led.get_score(5).0, 7);
    assert_eq!(led.get_score(8).0, 1);
}

#[test]
fn unknown_user_reads_all_zeros() {
    let led = ScoreLedger::new();
    assert_eq!(led.get_score(42), (0, 0, 0));
}

#[test]
fn leaderboard_keeps_both_top_scorers() {
    let mut led = ScoreLedger::new();
    led.increment_score(1, 50);
    led.increment_score(2, 50);
    led.increment_score(3, 30);
    let top = led.get_top(2);
    assert_eq!(top.len(), 2);
    assert_eq!(top[0].score, 50);
    assert_eq!(top[1].score, 50);
    let mut users = vec![top[0].user, top[1].user];
    users.sort();
    assert_eq!(users, vec![1, 2]);
}

#[test]
fn leaderboard_orders_ties_by_user() {
    let mut led = ScoreLedger::new();
    led.increment_score(9, 50);
    led.increment_score(2, 50);
    led.increment_score(3, 60);
    let top = led.get_top(10);
    assert_eq!(top.len(), 3);
    assert_eq!((top[0].user, top[0].score), (3, 60));
    assert_eq!((top[1].user, top[1].score), (2, 50));
    assert_eq!((top[2].user, top[2].score), (9, 50));
}

#[test]
fn leaderboard_of_empty_ledger_is_empty() {
    let led = ScoreLedger::new();
    assert_eq!(led.get_top(10).len(), 0);
}

#[test]
fn standing_shares_rank_among_ties() {
    let mut led = ScoreLedger::new();
    led.increment_score(1, 10);
    led.increment_score(2, 20);
    led.increment_score(3, 20);
    led.increment_score(4, 5);
    assert_eq!(led.get_score(2), (20, 2, 4));
    assert_eq!(led.get_score(3), (20, 2, 4));
    assert_eq!(led.get_score(1), (10, 3, 4));
    assert_eq!(led.get_score(4), (5, 4, 4));
}
