use hatagenpeikun::game::{pay_point, GameState, Hatagenpei, Player, PlayerTurn, Score};
use hatagenpeikun::outcome::{lookup, HatagenpeiCommand};

fn player(name: &str, held: i32) -> Player {
    Player::new(
        name.to_string(),
        Score {
            score: held,
            matoi: true,
        },
        Score {
            score: 0,
            matoi: false,
        },
    )
}

fn total(p1: &Player, p2: &Player) -> i32 {
    p1.my_score.score + p1.got_score.score + p2.my_score.score + p2.got_score.score
}

#[test]
fn game_hatagenpei_tests() {
    let mut game = Hatagenpei::new(
        Player::new(
            "alice".to_string(),
            Score {
                score: 10,
                matoi: true,
            },
            Score {
                score: 0,
                matoi: false,
            },
        ),
        Player::new(
            "bob".to_string(),
            Score {
                score: 10,
                matoi: true,
            },
            Score {
                score: 0,
                matoi: false,
            },
        ),
        PlayerTurn::Player1,
        123,
    );

    {
        let game_log = game.next().unwrap();
        assert_eq!(game_log.player_turn, PlayerTurn::Player1);
        assert_eq!(game_log.game_state, GameState::YetPlaying);
        assert_eq!(
            game_log.player1,
            Player {
                my_score: Score {
                    score: 10,
                    matoi: true
                },
                got_score: Score {
                    score: 0,
                    matoi: false
                },
                name: "alice".to_string()
            }
        );
        assert_eq!(
            game_log.player2,
            Player {
                my_score: Score {
                    score: 10,
                    matoi: true
                },
                got_score: Score {
                    score: 0,
                    matoi: false
                },
                name: "bob".to_string()
            }
        );
        assert_eq!(
            game_log.commands,
            vec![HatagenpeiCommand {
                dice1: 4,
                dice2: 5,
                point: 0,
                again: false,
                explain: "４  ５\tごっしりはなかみ\u{3000}\u{3000}旗の移動なし"
            }]
        );
    }

    {
        let game_log = game.next().unwrap();
        assert_eq!(game_log.player_turn, PlayerTurn::Player2);
        assert_eq!(game_log.game_state, GameState::Player2Win);
        assert_eq!(
            game_log.player1,
            Player {
                my_score: Score {
                    score: 0,
                    matoi: false
                },
                got_score: Score {
                    score: 0,
                    matoi: false
                },
                name: "alice".to_string()
            }
        );
        assert_eq!(
            game_log.player2,
            Player {
                my_score: Score {
                    score: 10,
                    matoi: true
                },
                got_score: Score {
                    score: 10,
                    matoi: true
                },
                name: "bob".to_string()
            }
        );

        assert_eq!(game_log.commands, vec![HatagenpeiCommand { dice1: 1, dice2: 6, point: 10, again: true, explain: "１  ６\tちんろく\t\u{3000}\u{3000}\u{3000}\u{3000}中旗１本もらう\u{3000}さいころを続けて振れる" },
                                           HatagenpeiCommand { dice1: 1, dice2: 5, point: 10, again: true, explain: "１  ５\tうめがいち\u{3000}\u{3000}\t\u{3000}\u{3000}中旗１本もらう\u{3000}さいころを続けて振れる" }]);
    }

    // The game is decided: further turns are refused.
    assert!(game.next().is_none());
}

#[test]
fn first_roll_of_seed_123_moves_nothing_from_initial_tokens() {
    let mut game = Hatagenpei::new(player("alice", 29), player("bot", 29), PlayerTurn::Player1, 123);
    let log = game.next().unwrap();
    assert_eq!(log.player_turn, PlayerTurn::Player1);
    assert_eq!(log.commands.len(), 1);
    assert_eq!((log.commands[0].dice1, log.commands[0].dice2), (4, 5));
    assert!(log.commands[0].explain.contains("旗の移動なし"));
    assert_eq!(log.player1.my_score.score, 29);
    assert_eq!(log.player2.my_score.score, 29);
    assert_eq!(log.game_state, GameState::YetPlaying);
    let second = game.next().unwrap();
    assert_eq!(second.player_turn, PlayerTurn::Player2);
}

#[test]
fn short_payment_loses_the_banner() {
    // Player one rolls an outcome worth -10 while holding only 5.
    let mut p1 = player("alice", 5);
    let mut p2 = player("bob", 29);
    pay_point(&mut p1, &mut p2, PlayerTurn::Player1, -10);
    assert_eq!(p1.my_score, Score { score: 0, matoi: false });
    assert_eq!(p2.got_score, Score { score: 5, matoi: true });
    assert_eq!(p2.my_score, Score { score: 29, matoi: true });
    // The game is now won by player two: no further turn is played.
    let mut game = Hatagenpei::new(p1, p2, PlayerTurn::Player2, 7);
    assert!(game.next().is_none());
}

#[test]
fn positive_point_flows_to_the_roller() {
    let mut p1 = player("alice", 29);
    let mut p2 = player("bob", 29);
    pay_point(&mut p1, &mut p2, PlayerTurn::Player2, 10);
    assert_eq!(p1.my_score, Score { score: 19, matoi: true });
    assert_eq!(p2.got_score, Score { score: 10, matoi: false });
    pay_point(&mut p1, &mut p2, PlayerTurn::Player2, 0);
    assert_eq!(p1.my_score.score, 19);
    assert_eq!(p2.got_score.score, 10);
    // Exactly the held count can be paid without losing the banner.
    let mut q1 = player("alice", 10);
    let mut q2 = player("bob", 10);
    pay_point(&mut q1, &mut q2, PlayerTurn::Player2, 10);
    assert_eq!(q1.my_score, Score { score: 0, matoi: true });
    assert_eq!(q2.got_score, Score { score: 10, matoi: false });
}

#[test]
fn tokens_are_conserved_over_a_whole_game() {
    for seed in 0..20u64 {
        let mut game = Hatagenpei::new(player("alice", 29), player("bot", 29), PlayerTurn::Player1, seed);
        let mut turns = 0;
        let mut expected_turn = PlayerTurn::Player1;
        while let Some(log) = game.next() {
            assert_eq!(total(&log.player1, &log.player2), 58);
            assert!(log.player1.my_score.score >= 0 && log.player2.my_score.score >= 0);
            assert_eq!(log.player_turn, expected_turn);
            expected_turn = if expected_turn == PlayerTurn::Player1 {
                PlayerTurn::Player2
            } else {
                PlayerTurn::Player1
            };
            turns += 1;
            if log.game_state != GameState::YetPlaying {
                let winner_captured = match log.game_state {
                    GameState::Player1Win => log.player1.got_score.matoi && !log.player2.my_score.matoi,
                    _ => log.player2.got_score.matoi && !log.player1.my_score.matoi,
                };
                assert!(winner_captured);
            }
            assert!(turns < 10_000);
        }
    }
}

#[test]
fn same_seed_same_game() {
    let mut a = Hatagenpei::new(player("alice", 29), player("bot", 29), PlayerTurn::Player1, 99);
    let mut b = Hatagenpei::new(player("alice", 29), player("bot", 29), PlayerTurn::Player1, 99);
    loop {
        let la = a.next();
        let lb = b.next();
        match (la, lb) {
            (Some(x), Some(y)) => {
                assert_eq!(x.commands, y.commands);
                assert_eq!(x.player1, y.player1);
                assert_eq!(x.player2, y.player2);
                assert_eq!(x.game_state, y.game_state);
            }
            (None, None) => break,
            _ => panic!("engines diverged"),
        }
    }
}

#[test]
fn outcome_table_is_total_and_symmetric() {
    for d1 in 1..=6u8 {
        for d2 in 1..=6u8 {
            let a = lookup(d1, d2);
            let b = lookup(d2, d1);
            assert_eq!(a, b);
            assert_eq!((a.dice1, a.dice2), (d1.min(d2), d1.max(d2)));
            if d1 == d2 {
                assert_eq!(a.point, 2);
                assert!(a.again);
            }
        }
    }
    assert_eq!(lookup(6, 1).point, 10);
    assert!(lookup(5, 1).again);
    assert_eq!(lookup(4, 2).point, -10);
    assert!(!lookup(4, 2).again);
    assert_eq!(lookup(5, 4).point, 0);
    assert_eq!(lookup(6, 5).point, 1);
    assert!(lookup(6, 5).explain.starts_with("５  ６\tごろく"));
}

#[test]
fn get_score_shows_both_players() {
    let mut game = Hatagenpei::new(player("alice", 10), player("bob", 10), PlayerTurn::Player1, 123);
    game.next();
    game.next();
    let (p1, p2) = game.get_score();
    assert_eq!(p1.my_score, Score { score: 0, matoi: false });
    assert_eq!(p2.got_score, Score { score: 10, matoi: true });
    assert_eq!(p2.name, "bob");
}
