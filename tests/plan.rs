use hatagenpeikun::controller::{
    is_resumable, plan_step, HatagenpeiController, StoreAction, HATAGENPEI_INIT_SCORE,
};
use hatagenpeikun::game::{Player, Score};
use hatagenpeikun::score_operator::map::ScoresInMap;
use hatagenpeikun::score_operator::postgre::{
    create_table_query, delete_query, insert_query, select_all_query, select_query, update_query,
    write_kind, WriteKind, DB_HATAGENPEI_PROGRESS_KEY, DB_HATAGENPEI_WINLOSES_KEY,
};
use hatagenpeikun::score_operator::{next_winlose, Progress, ScoreOperator, WinLose};

fn side(name: &str, held: i32, got: i32, matoi: bool, captured: bool) -> Player {
    Player::new(
        name.to_string(),
        Score {
            score: held,
            matoi,
        },
        Score {
            score: got,
            matoi: captured,
        },
    )
}

#[test]
fn plan_without_progress_starts_a_fresh_game() {
    let plan = plan_step(None, &"bot".to_string(), "alice", 123);
    assert!(plan.result.is_start);
    assert!(!plan.result.is_over);
    let fresh = plan.fresh.unwrap();
    assert_eq!(fresh.user, side("alice", HATAGENPEI_INIT_SCORE, 0, true, false));
    assert_eq!(fresh.bot, side("bot", HATAGENPEI_INIT_SCORE, 0, true, false));
    match plan.action {
        StoreAction::SaveProgress(p) => {
            assert_eq!(p.user.name, "alice");
            assert_eq!(p.bot.name, "bot");
            let total = p.user.my_score.score
                + p.user.got_score.score
                + p.bot.my_score.score
                + p.bot.got_score.score;
            assert_eq!(total, 2 * HATAGENPEI_INIT_SCORE);
        }
        StoreAction::Finish(_) => panic!("the game cannot end in the first step"),
    }
}

#[test]
fn plan_with_nearly_lost_progress_finishes_the_game() {
    // Alice holds nothing: any roll that asks her to pay, or any roll of the
    // bot, takes her banner. Some seed among these ends the game.
    let mut finished = 0;
    for seed in 0..50u64 {
        let existing = Progress::new(&side("alice", 0, 3, true, false), &side("bot", 50, 0, true, false));
        let plan = plan_step(Some(existing), &"bot".to_string(), "alice", seed);
        assert!(!plan.result.is_start);
        assert!(plan.fresh.is_none());
        match plan.action {
            StoreAction::Finish(won) => {
                finished += 1;
                assert!(plan.result.is_over);
                let n = plan.result.logs.len();
                assert_eq!(plan.result.logs[n - 1], "");
                let expected = if won { "alice の勝ち" } else { "bot の勝ち" };
                assert_eq!(plan.result.logs[n - 2], expected);
            }
            StoreAction::SaveProgress(_) => assert!(!plan.result.is_over),
        }
    }
    assert!(finished > 0);
}

#[test]
fn resumable_progress() {
    let ok = Progress::new(&side("a", 29, 0, true, false), &side("b", 29, 0, true, false));
    assert!(is_resumable(&ok));
    let won = Progress::new(&side("a", 29, 0, true, true), &side("b", 0, 0, false, false));
    assert!(!is_resumable(&won));
    let negative = Progress::new(&side("a", -1, 0, true, false), &side("b", 29, 0, true, false));
    assert!(!is_resumable(&negative));
    let too_many = Progress::new(&side("a", i32::MAX, 0, true, false), &side("b", 1, 0, true, false));
    assert!(!is_resumable(&too_many));
}

#[test]
fn can_step_now_refuses_a_decided_game() {
    let mut store = ScoresInMap::new();
    store.insert_progress(&Progress::new(
        &side("alice", 29, 0, true, true),
        &side("bot", 0, 0, false, false),
    ));
    let mut controller = HatagenpeiController::new(store, &"bot".to_string());
    assert!(!controller.can_step_now("alice"));
    assert!(controller.can_step_now("bob"));
}

#[test]
fn next_winlose_counts_one_more_game() {
    let w = next_winlose(None, "alice", true);
    assert_eq!((w.name.as_str(), w.win, w.lose), ("alice", 1, 0));
    let l = next_winlose(Some(WinLose::new(4, 7, "alice")), "alice", false);
    assert_eq!((l.name.as_str(), l.win, l.lose), ("alice", 4, 8));
}

#[test]
fn relational_statements() {
    assert_eq!(
        create_table_query(DB_HATAGENPEI_PROGRESS_KEY),
        "CREATE TABLE IF NOT EXISTS hatagenpei_progress (name VARCHAR NOT NULL, data VARCHAR NOT NULL)"
    );
    assert_eq!(
        select_query(DB_HATAGENPEI_WINLOSES_KEY),
        "SELECT name, data FROM hatagenpei_winloses WHERE name = $1"
    );
    assert_eq!(select_all_query("t"), "SELECT name, data FROM t");
    assert_eq!(insert_query("t"), "INSERT INTO t (name, data) VALUES ($1, $2)");
    assert_eq!(update_query("t"), "UPDATE t SET data = $1 WHERE name = $2");
    assert_eq!(delete_query("t"), "DELETE FROM t WHERE name = $1");
    assert_eq!(write_kind(0), WriteKind::Insert);
    assert_eq!(write_kind(2), WriteKind::Update);
}
