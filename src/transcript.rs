//! The transcript of a turn: who rolled, what was rolled, and where both
//! players stand afterwards.

use crate::display::score_text;
use crate::game::{
    turn_of, valid_pair, EngineView, GameLog, GameState, Player, PlayerTurn, PlayerView,
};
use crate::outcome::{explain_of, HatagenpeiCommand};
use vstd::prelude::*;

verus! {

/// The characters of each line.
pub open spec fn texts(v: Seq<String>) -> Seq<Seq<char>> {
    v.map_values(|s: String| s@)
}

/// The three lines that show one player.
pub open spec fn player_lines(p: PlayerView) -> Seq<Seq<char>> {
    seq![
        "- "@ + p.name,
        "   - 自分の旗 【"@ + score_text(p.my_score) + "】"@,
        "   - 取った旗 【"@ + score_text(p.got_score) + "】"@,
    ]
}

/// One line per roll, with the roll's description.
pub open spec fn roll_lines(rolls: Seq<(u8, u8)>) -> Seq<Seq<char>> {
    rolls.map_values(|r: (u8, u8)| "- "@ + explain_of(r.0, r.1))
}

/// One line per outcome, with the outcome's description.
pub open spec fn command_lines(cmds: Seq<HatagenpeiCommand>) -> Seq<Seq<char>> {
    cmds.map_values(|c: HatagenpeiCommand| "- "@ + c.explain@)
}

/// The transcript of one turn: who rolled, what was rolled, and both players
/// afterwards.
pub open spec fn turn_lines(
    name: Seq<char>,
    rolled: Seq<Seq<char>>,
    p1: PlayerView,
    p2: PlayerView,
) -> Seq<Seq<char>> {
    seq!["# "@ + name + " の番"@, "## サイコロの結果"@] + rolled + seq![""@, "## 旗状況"@]
        + player_lines(p1) + player_lines(p2) + seq![""@]
}

/// The transcript of the turn that `e` plays next.
pub open spec fn turn_report_lines(e: EngineView) -> Seq<Seq<char>> {
    let t = turn_of(e);
    let name = if e.turn == PlayerTurn::Player1 {
        t.0.name
    } else {
        t.1.name
    };
    turn_lines(name, roll_lines(t.2), t.0, t.1)
}

/// The lines that name the winner.
pub open spec fn win_lines(winner: Seq<char>) -> Seq<Seq<char>> {
    seq![winner + " の勝ち"@, ""@]
}

/// The name of the winner of a game decided in state `st`.
pub open spec fn winner_name(st: GameState, name: Seq<char>, bot: Seq<char>) -> Seq<char> {
    if st == GameState::Player1Win {
        name
    } else {
        bot
    }
}

pub(crate) fn push_line(logs: &mut Vec<String>, line: String)
    ensures
        texts(final(logs)@) == texts(old(logs)@).push(line@),
{
    logs.push(line);
    assert(texts(final(logs)@) =~= texts(old(logs)@).push(line@));
}

pub(crate) fn push_player_lines(logs: &mut Vec<String>, p: &Player)
    requires
        p.my_score.score >= 0,
        p.got_score.score >= 0,
    ensures
        texts(final(logs)@) == texts(old(logs)@) + player_lines(p@),
{
    push_line(logs, String::from_str("- ").concat(p.name.as_str()));
    let mine = p.my_score.to_string();
    push_line(logs, String::from_str("   - 自分の旗 【").concat(mine.as_str()).concat("】"));
    let got = p.got_score.to_string();
    push_line(logs, String::from_str("   - 取った旗 【").concat(got.as_str()).concat("】"));
    assert(texts(final(logs)@) =~= texts(old(logs)@) + player_lines(p@));
}

/// Appends the transcript of the turn that `log` reports.
pub(crate) fn push_turn_lines(logs: &mut Vec<String>, log: &GameLog)
    requires
        valid_pair(log.player1@, log.player2@),
    ensures
        texts(final(logs)@) == texts(old(logs)@) + turn_lines(
            if log.player_turn == PlayerTurn::Player1 {
                log.player1@.name
            } else {
                log.player2@.name
            },
            command_lines(log.commands@),
            log.player1@,
            log.player2@,
        ),
{
    let name = match log.player_turn {
        PlayerTurn::Player1 => &log.player1.name,
        PlayerTurn::Player2 => &log.player2.name,
    };
    push_line(logs, String::from_str("# ").concat(name.as_str()).concat(" の番"));
    push_line(logs, String::from_str("## サイコロの結果"));
    let ghost before = texts(logs@);
    let mut i: usize = 0;
    while i < log.commands.len()
        invariant
            i <= log.commands@.len(),
            texts(logs@) == before + command_lines(log.commands@.subrange(0, i as int)),
        decreases log.commands@.len() - i,
    {
        push_line(logs, String::from_str("- ").concat(log.commands[i].explain));
        i = i + 1;
        assert(command_lines(log.commands@.subrange(0, i as int)) =~= command_lines(
            log.commands@.subrange(0, i - 1),
        ).push("- "@ + log.commands@[i - 1].explain@));
    }
    assert(log.commands@.subrange(0, i as int) =~= log.commands@);
    push_line(logs, String::from_str(""));
    push_line(logs, String::from_str("## 旗状況"));
    push_player_lines(logs, &log.player1);
    push_player_lines(logs, &log.player2);
    push_line(logs, String::from_str(""));
    assert(texts(final(logs)@) =~= texts(old(logs)@) + turn_lines(
        if log.player_turn == PlayerTurn::Player1 {
            log.player1@.name
        } else {
            log.player2@.name
        },
        command_lines(log.commands@),
        log.player1@,
        log.player2@,
    ));
}

} // verus!
