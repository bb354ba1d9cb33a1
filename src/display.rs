//! Text rendering of token counts: decimal numerals, and a count split into
//! large (50), medium (10) and small (1) flags.

use crate::game::Score;
use vstd::prelude::*;

verus! {

/// The numeral of a digit `d < 10`.
pub open spec fn digit_char(d: int) -> char {
    if d == 0 {
        '0'
    } else if d == 1 {
        '1'
    } else if d == 2 {
        '2'
    } else if d == 3 {
        '3'
    } else if d == 4 {
        '4'
    } else if d == 5 {
        '5'
    } else if d == 6 {
        '6'
    } else if d == 7 {
        '7'
    } else if d == 8 {
        '8'
    } else {
        '9'
    }
}

/// The decimal numeral of `n`, without leading zeros.
pub open spec fn decimal(n: nat) -> Seq<char>
    decreases n,
{
    if n < 10 {
        seq![digit_char(n as int)]
    } else {
        decimal(n / 10) + seq![digit_char((n % 10) as int)]
    }
}

/// Large flags are worth 50 tokens.
pub const LARGE_FLAG: u32 = 50;

/// Medium flags are worth 10 tokens.
pub const MEDIUM_FLAG: u32 = 10;

/// How a score reads: the banner as 1 or 0, then the count in large, medium
/// and small flags.
pub open spec fn score_text(s: Score) -> Seq<char> {
    let n = s.score as nat;
    "まとい : "@ + decimal(
        if s.matoi {
            1
        } else {
            0
        },
    ) + " 本、 大旗 : "@ + decimal(n / (LARGE_FLAG as nat)) + " 本、中旗 : "@ + decimal(
        (n % (LARGE_FLAG as nat)) / (MEDIUM_FLAG as nat),
    ) + " 本、小旗 : "@ + decimal((n % (LARGE_FLAG as nat)) % (MEDIUM_FLAG as nat)) + " 本"@
}

fn digit_str(d: u32) -> (r: &'static str)
    requires
        d < 10,
    ensures
        r@ == seq![digit_char(d as int)],
{
    proof {
        reveal_strlit("0");
        reveal_strlit("1");
        reveal_strlit("2");
        reveal_strlit("3");
        reveal_strlit("4");
        reveal_strlit("5");
        reveal_strlit("6");
        reveal_strlit("7");
        reveal_strlit("8");
        reveal_strlit("9");
    }
    let r = match d {
        0 => "0",
        1 => "1",
        2 => "2",
        3 => "3",
        4 => "4",
        5 => "5",
        6 => "6",
        7 => "7",
        8 => "8",
        _ => "9",
    };
    assert(r@ =~= seq![digit_char(d as int)]);
    r
}

/// Appends the decimal numeral of `n` to `s`.
pub fn push_decimal(s: &mut String, n: u32)
    ensures
        final(s)@ == old(s)@ + decimal(n as nat),
    decreases n,
{
    if n >= 10 {
        push_decimal(s, n / 10);
    }
    s.append(digit_str(n % 10));
    assert(final(s)@ =~= old(s)@ + decimal(n as nat));
}

impl Score {
    /// The score as shown to players: banner, large, medium and small flags.
    pub fn to_string(&self) -> (r: String)
        requires
            self.score >= 0,
        ensures
            r@ == score_text(*self),
    {
        let n = self.score as u32;
        let obata = n / LARGE_FLAG;
        let chubata = (n % LARGE_FLAG) / MEDIUM_FLAG;
        let kobata = (n % LARGE_FLAG) % MEDIUM_FLAG;
        let m: u32 = if self.matoi {
            1
        } else {
            0
        };
        let mut s = String::from_str("まとい : ");
        push_decimal(&mut s, m);
        s.append(" 本、 大旗 : ");
        push_decimal(&mut s, obata);
        s.append(" 本、中旗 : ");
        push_decimal(&mut s, chubata);
        s.append(" 本、小旗 : ");
        push_decimal(&mut s, kobata);
        s.append(" 本");
        s
    }
}

} // verus!
