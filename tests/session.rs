use hatagenpeikun::commands::{escape_name, hatagenpei_reply, winloses_reply};
use hatagenpeikun::controller::{HatagenpeiController, StepResult, HATAGENPEI_INIT_SCORE};
use hatagenpeikun::display::push_decimal;
use hatagenpeikun::game::{Player, Score};
use hatagenpeikun::score_operator::map::ScoresInMap;
use hatagenpeikun::score_operator::{Progress, ScoreOperator, WinLose};

fn player(name: &str, held: i32, got: i32) -> Player {
    Player::new(
        name.to_string(),
        Score {
            score: held,
            matoi: true,
        },
        Score {
            score: got,
            matoi: false,
        },
    )
}

#[test]
fn put_then_get_gives_back_the_progress() {
    let mut store = ScoresInMap::new();
    assert!(store.get_progress("alice").is_none());
    let p = Progress::new(&player("alice", 20, 3), &player("bot", 30, 5));
    assert!(store.insert_progress(&p));
    let q = store.get_progress("alice").unwrap();
    assert_eq!(q.user, p.user);
    assert_eq!(q.bot, p.bot);
    // Keys are exact and case-sensitive.
    assert!(store.get_progress("Alice").is_none());
    // Saving again under the same name replaces the earlier progress.
    let p2 = Progress::new(&player("alice", 1, 22), &player("bot", 30, 5));
    store.insert_progress(&p2);
    assert_eq!(store.get_progress("alice").unwrap().user, p2.user);
    assert!(store.delete_progress("alice"));
    assert!(store.get_progress("alice").is_none());
    // Deleting what is not there changes nothing.
    assert!(store.delete_progress("nobody"));
}

#[test]
fn tallies_count_wins_and_losses() {
    let mut store = ScoresInMap::new();
    assert!(store.get_win_loses().is_empty());
    store.update_winloses("alice", true);
    store.update_winloses("bob", false);
    store.update_winloses("alice", true);
    store.update_winloses("alice", false);
    let records = store.get_win_loses();
    assert_eq!(records.len(), 2);
    let alice = records.iter().find(|w| w.name == "alice").unwrap();
    assert_eq!((alice.win, alice.lose), (2, 1));
    let bob = records.iter().find(|w| w.name == "bob").unwrap();
    assert_eq!((bob.win, bob.lose), (0, 1));
}

#[test]
fn session_starts_resumes_and_restarts() {
    let mut controller = HatagenpeiController::new(ScoresInMap::new(), &"bot".to_string());
    let first = controller.step("alice");
    assert!(first.is_start);
    assert_eq!(first.logs[0], "# alice の番");
    assert_eq!(first.logs[1], "## サイコロの結果");
    let mut last = first;
    let mut steps = 1;
    while !last.is_over {
        last = controller.step("alice");
        assert!(!last.is_start);
        steps += 1;
        assert!(steps < 10_000);
    }
    let winner_line = &last.logs[last.logs.len() - 2];
    assert!(winner_line == "alice の勝ち" || winner_line == "bot の勝ち");
    assert_eq!(last.logs[last.logs.len() - 1], "");
    let records = controller.get_win_loses();
    assert_eq!(records.len(), 1);
    assert_eq!(records[0].name, "alice");
    assert_eq!(records[0].win + records[0].lose, 1);
    assert_eq!(records[0].win == 1, winner_line == "alice の勝ち");
    // The finished game was removed: the next step starts a new one.
    let again = controller.step("alice");
    assert!(again.is_start);
}

#[test]
fn seeded_steps_are_reproducible() {
    let mut a = HatagenpeiController::new(ScoresInMap::new(), &"bot".to_string());
    let mut b = HatagenpeiController::new(ScoresInMap::new(), &"bot".to_string());
    for seed in 0..30u64 {
        let ra = a.step_with_seed("alice", seed);
        let rb = b.step_with_seed("alice", seed);
        assert_eq!(ra.logs, rb.logs);
        assert_eq!(ra.is_over, rb.is_over);
        assert_eq!(ra.is_start, rb.is_start);
    }
}

#[test]
fn step_with_seed_123_writes_both_turns() {
    let mut controller = HatagenpeiController::new(ScoresInMap::new(), &"bot".to_string());
    let r = controller.step_with_seed("alice", 123);
    assert!(r.is_start);
    assert!(!r.is_over);
    let full = "まとい : 1 本、 大旗 : 0 本、中旗 : 2 本、小旗 : 9 本";
    let none = "まとい : 0 本、 大旗 : 0 本、中旗 : 0 本、小旗 : 0 本";
    assert_eq!(
        r.logs[..13].to_vec(),
        vec![
            "# alice の番".to_string(),
            "## サイコロの結果".to_string(),
            "- ４  ５\tごっしりはなかみ\u{3000}\u{3000}旗の移動なし".to_string(),
            "".to_string(),
            "## 旗状況".to_string(),
            "- alice".to_string(),
            format!("   - 自分の旗 【{}】", full),
            format!("   - 取った旗 【{}】", none),
            "- bot".to_string(),
            format!("   - 自分の旗 【{}】", full),
            format!("   - 取った旗 【{}】", none),
            "".to_string(),
            "# bot の番".to_string(),
        ]
    );
    // The game goes on, so it was saved and the next step resumes it.
    let next = controller.step_with_seed("alice", 5);
    assert!(!next.is_start);
}

#[test]
fn score_text_splits_into_flags() {
    let s = Score {
        score: HATAGENPEI_INIT_SCORE,
        matoi: true,
    };
    assert_eq!(s.to_string(), "まとい : 1 本、 大旗 : 0 本、中旗 : 2 本、小旗 : 9 本");
    let t = Score {
        score: 123,
        matoi: false,
    };
    assert_eq!(t.to_string(), "まとい : 0 本、 大旗 : 2 本、中旗 : 2 本、小旗 : 3 本");
    let u = Score {
        score: 50,
        matoi: true,
    };
    assert_eq!(u.to_string(), "まとい : 1 本、 大旗 : 1 本、中旗 : 0 本、小旗 : 0 本");
}

#[test]
fn decimal_numerals() {
    let mut s = String::from("n=");
    push_decimal(&mut s, 0);
    assert_eq!(s, "n=0");
    push_decimal(&mut s, 4_294_967_295);
    assert_eq!(s, "n=04294967295");
}

#[test]
fn escape_name_puts_a_dot_after_the_first_character() {
    assert_eq!(escape_name("alice"), "a.lice");
    assert_eq!(escape_name("a"), "a.");
    assert_eq!(escape_name(""), "");
    assert_eq!(escape_name("旗源平"), "旗.源平");
}

#[test]
fn replies_are_code_blocks() {
    let res = StepResult {
        logs: vec!["one".to_string(), "two".to_string()],
        is_over: false,
        is_start: true,
    };
    assert_eq!(hatagenpei_reply(&res), "旗源平を始めるげん!\n\n```one\ntwo```");
    let quiet = StepResult {
        logs: vec![],
        is_over: true,
        is_start: false,
    };
    assert_eq!(hatagenpei_reply(&quiet), "``````");
    let records = vec![WinLose::new(3, 12, "alice"), WinLose::new(0, 0, "b")];
    assert_eq!(
        winloses_reply(&records),
        "```# 勝敗\n- a.lice 【3勝 12敗】\n- b. 【0勝 0敗】\n```"
    );
}

#[test]
fn tallies_are_listed_in_name_order() {
    let mut store = ScoresInMap::new();
    for name in ["carol", "alice", "bob", "al", "Zed", "ébé", "bob"] {
        store.update_winloses(name, false);
    }
    let names: Vec<String> = store.get_win_loses().into_iter().map(|w| w.name).collect();
    assert_eq!(names, vec!["Zed", "al", "alice", "bob", "carol", "ébé"]);
    let bob = store.get_win_loses().into_iter().find(|w| w.name == "bob").unwrap();
    assert_eq!(bob.lose, 2);
}
