//! The text of the bot's replies: a step's transcript, and the table of
//! tallies with names escaped so that they do not mention anyone.

use crate::controller::StepResult;
use crate::transcript::texts;
use crate::display::{decimal, push_decimal};
use crate::score_operator::WinLose;
use vstd::prelude::*;

verus! {

/// A name with a dot after its first character.
pub open spec fn escaped(name: Seq<char>) -> Seq<char> {
    if name.len() == 0 {
        Seq::empty()
    } else {
        seq![name[0], '.'] + name.subrange(1, name.len() as int)
    }
}

/// The lines joined by newlines.
pub open spec fn joined(lines: Seq<Seq<char>>) -> Seq<char>
    decreases lines.len(),
{
    if lines.len() == 0 {
        Seq::empty()
    } else if lines.len() == 1 {
        lines[0]
    } else {
        joined(lines.drop_last()) + "\n"@ + lines.last()
    }
}

/// The reply to a step: a greeting when the game started, then the
/// transcript as a code block.
pub open spec fn step_reply(lines: Seq<Seq<char>>, is_start: bool) -> Seq<char> {
    (if is_start {
        "旗源平を始めるげん!\n\n"@
    } else {
        Seq::empty()
    }) + "```"@ + joined(lines) + "```"@
}

/// The line of one tally.
pub open spec fn record_line(w: WinLose) -> Seq<char> {
    "- "@ + escaped(w.name@) + " 【"@ + decimal(w.win as nat) + "勝 "@ + decimal(w.lose as nat)
        + "敗】\n"@
}

/// The lines of the tallies, one after the other.
pub open spec fn record_lines(rs: Seq<WinLose>) -> Seq<char>
    decreases rs.len(),
{
    if rs.len() == 0 {
        Seq::empty()
    } else {
        record_lines(rs.drop_last()) + record_line(rs.last())
    }
}

/// The reply that lists the tallies.
pub open spec fn records_reply(rs: Seq<WinLose>) -> Seq<char> {
    "```"@ + "# 勝敗\n"@ + record_lines(rs) + "```"@
}

/// Puts a dot after the first character of `name`, so that showing it does
/// not mention the player.
pub fn escape_name(name: &str) -> (r: String)
    ensures
        r@ == escaped(name@),
{
    let n = name.unicode_len();
    if n == 0 {
        return String::new();
    }
    let first = name.substring_char(0, 1);
    let rest = name.substring_char(1, n);
    let r = String::from_str(first).concat(".").concat(rest);
    proof {
        reveal_strlit(".");
    }
    assert(r@ =~= escaped(name@));
    r
}

/// The reply that shows a step.
pub fn hatagenpei_reply(res: &StepResult) -> (r: String)
    ensures
        r@ == step_reply(texts(res.logs@), res.is_start),
{
    let mut s = if res.is_start {
        String::from_str("旗源平を始めるげん!\n\n")
    } else {
        String::new()
    };
    s.append("```");
    let ghost head = s@;
    let ghost lines = texts(res.logs@);
    let mut i: usize = 0;
    while i < res.logs.len()
        invariant
            i <= res.logs@.len(),
            lines == texts(res.logs@),
            s@ == head + joined(lines.subrange(0, i as int)),
        decreases res.logs@.len() - i,
    {
        if i > 0 {
            s.append("\n");
        }
        s.append(res.logs[i].as_str());
        i = i + 1;
        assert(lines.subrange(0, i as int).drop_last() =~= lines.subrange(0, i - 1));
        assert(s@ =~= head + joined(lines.subrange(0, i as int)));
    }
    assert(lines.subrange(0, i as int) =~= lines);
    s.append("```");
    assert(s@ =~= step_reply(lines, res.is_start));
    s
}

/// The reply that lists every tally.
pub fn winloses_reply(records: &Vec<WinLose>) -> (r: String)
    requires
        forall|i: int| 0 <= i < records@.len() ==> #[trigger] records@[i].win >= 0 && records@[i].lose >= 0,
    ensures
        r@ == records_reply(records@),
{
    let mut s = String::from_str("```");
    s.append("# 勝敗\n");
    let ghost head = s@;
    let mut i: usize = 0;
    while i < records.len()
        invariant
            i <= records@.len(),
            forall|j: int| 0 <= j < records@.len() ==> #[trigger] records@[j].win >= 0 && records@[j].lose >= 0,
            s@ == head + record_lines(records@.subrange(0, i as int)),
        decreases records@.len() - i,
    {
        let ghost before = s@;
        let w = &records[i];
        s.append("- ");
        let name = escape_name(w.name.as_str());
        s.append(name.as_str());
        s.append(" 【");
        push_decimal(&mut s, w.win as u32);
        s.append("勝 ");
        push_decimal(&mut s, w.lose as u32);
        s.append("敗】\n");
        assert(s@ =~= before + record_line(*w));
        i = i + 1;
        assert(records@.subrange(0, i as int).drop_last() =~= records@.subrange(0, i - 1));
        assert(s@ =~= head + record_lines(records@.subrange(0, i as int)));
    }
    assert(records@.subrange(0, i as int) =~= records@);
    s.append("```");
    assert(s@ =~= records_reply(records@));
    s
}

} // verus!
