//! The outcome table: what each unordered pair of die faces does.

use vstd::prelude::*;

verus! {

/// One entry of the outcome table.
///
/// `point` is signed: a positive value is paid by the opponent to the player
/// who rolled, a negative value is paid by the player who rolled. When
/// `again` holds the same player rolls once more.
#[derive(Debug, Clone, PartialEq)]
pub struct HatagenpeiCommand {
    pub dice1: u8,
    pub dice2: u8,
    pub point: i32,
    pub again: bool,
    pub explain: &'static str,
}

/// A die face.
pub open spec fn is_face(d: u8) -> bool {
    1 <= d <= 6
}

/// Doubles reroll, and so do the two pairs that move a medium flag.
pub open spec fn again_of(lo: u8, hi: u8) -> bool {
    lo == hi || (lo == 1 && (hi == 5 || hi == 6))
}

/// The signed transfer of the pair `lo <= hi`: doubles give two tokens, one and
/// five or one and six give ten, two and four costs ten, five pairs move
/// nothing, and every other pair gives one token.
pub open spec fn point_of(lo: u8, hi: u8) -> int {
    if lo == hi {
        2
    } else if lo == 1 && (hi == 5 || hi == 6) {
        10
    } else if lo == 2 && hi == 4 {
        -10
    } else if (lo == 2 && (hi == 3 || hi == 5)) || (lo == 3 && (hi == 4 || hi == 5)) || (lo == 4
        && hi == 5) {
        0
    } else {
        1
    }
}

/// The text that describes the pair `lo <= hi`.
pub open spec fn explain_of(lo: u8, hi: u8) -> Seq<char> {
    match (lo, hi) {
        (1, 1) => "１  １\tちんちんかもかも　　小旗２本もらう　さいころを続けて振れる"@,
        (2, 2) => "２  ２\tにゃあにゃあ\t　　小旗２本もらう　さいころを続けて振れる"@,
        (3, 3) => "３  ３\tさざなみ\t　　　　小旗２本もらう　さいころを続けて振れる"@,
        (4, 4) => "４  ４\tしゅうじゅう\t　　小旗２本もらう　さいころを続けて振れる"@,
        (5, 5) => "５  ５\tごんご\t　　　　　　小旗２本もらう　さいころを続けて振れる"@,
        (6, 6) => "６  ６\tじょうろく\t　　　　小旗２本もらう　さいころを続けて振れる"@,
        (1, 2) => "１  ２\tちんに\t　　　　　　小旗１本もらう"@,
        (1, 3) => "１  ３\tちんさん　　\t　　小旗１本もらう"@,
        (1, 4) => "１  ４\tちんし\t　　　　　　小旗１本もらう"@,
        (1, 5) => "１  ５\tうめがいち　　\t　　中旗１本もらう　さいころを続けて振れる"@,
        (1, 6) => "１  ６\tちんろく\t　　　　中旗１本もらう　さいころを続けて振れる"@,
        (2, 3) => "２  ３\tにさまのかんかんど\t旗の移動なし"@,
        (2, 4) => "２  ４\tしのに\t　　　　　　中旗１本返す"@,
        (2, 5) => "２  ５\tごにごに\t　　　　旗の移動なし"@,
        (2, 6) => "２  ６\tろくに\t　　　　　　小旗１本もらう"@,
        (3, 4) => "３  ４\tしさまのかんかんど　旗の移動なし"@,
        (3, 5) => "３  ５\tごさまのかんかんど　旗の移動なし"@,
        (3, 6) => "３  ６\tろくさん\t　　　　小旗１本もらう"@,
        (4, 5) => "４  ５\tごっしりはなかみ　　旗の移動なし"@,
        (4, 6) => "４  ６\tしろく\t　　　　　　小旗１本もらう"@,
        (5, 6) => "５  ６\tごろく\t　　　　　　小旗１本もらう"@,
        _ => Seq::empty(),
    }
}

/// The faces of a roll in ascending order.
pub open spec fn ordered(d1: u8, d2: u8) -> (u8, u8) {
    if d1 <= d2 {
        (d1, d2)
    } else {
        (d2, d1)
    }
}

/// `c` is the table's entry for the pair `lo <= hi`.
pub open spec fn is_entry(c: HatagenpeiCommand, lo: u8, hi: u8) -> bool {
    &&& c.dice1 == lo
    &&& c.dice2 == hi
    &&& c.point == point_of(lo, hi)
    &&& c.again == again_of(lo, hi)
    &&& c.explain@ == explain_of(lo, hi)
}

/// `c` is what the table gives for the roll `(d1, d2)`, in either order.
pub open spec fn is_outcome(c: HatagenpeiCommand, d1: u8, d2: u8) -> bool {
    is_entry(c, ordered(d1, d2).0, ordered(d1, d2).1)
}

fn entry(dice1: u8, dice2: u8, point: i32, again: bool, explain: &'static str) -> (r:
    HatagenpeiCommand)
    ensures
        r == (HatagenpeiCommand { dice1, dice2, point, again, explain }),
{
    HatagenpeiCommand { dice1, dice2, point, again, explain }
}

fn table_entry(lo: u8, hi: u8) -> (r: HatagenpeiCommand)
    requires
        is_face(lo),
        is_face(hi),
        lo <= hi,
    ensures
        is_entry(r, lo, hi),
{
    match (lo, hi) {
        (1, 1) => entry(1, 1, 2, true, "１  １\tちんちんかもかも　　小旗２本もらう　さいころを続けて振れる"),
        (2, 2) => entry(2, 2, 2, true, "２  ２\tにゃあにゃあ\t　　小旗２本もらう　さいころを続けて振れる"),
        (3, 3) => entry(3, 3, 2, true, "３  ３\tさざなみ\t　　　　小旗２本もらう　さいころを続けて振れる"),
        (4, 4) => entry(4, 4, 2, true, "４  ４\tしゅうじゅう\t　　小旗２本もらう　さいころを続けて振れる"),
        (5, 5) => entry(5, 5, 2, true, "５  ５\tごんご\t　　　　　　小旗２本もらう　さいころを続けて振れる"),
        (6, 6) => entry(6, 6, 2, true, "６  ６\tじょうろく\t　　　　小旗２本もらう　さいころを続けて振れる"),
        (1, 2) => entry(1, 2, 1, false, "１  ２\tちんに\t　　　　　　小旗１本もらう"),
        (1, 3) => entry(1, 3, 1, false, "１  ３\tちんさん　　\t　　小旗１本もらう"),
        (1, 4) => entry(1, 4, 1, false, "１  ４\tちんし\t　　　　　　小旗１本もらう"),
        (1, 5) => entry(1, 5, 10, true, "１  ５\tうめがいち　　\t　　中旗１本もらう　さいころを続けて振れる"),
        (1, 6) => entry(1, 6, 10, true, "１  ６\tちんろく\t　　　　中旗１本もらう　さいころを続けて振れる"),
        (2, 3) => entry(2, 3, 0, false, "２  ３\tにさまのかんかんど\t旗の移動なし"),
        (2, 4) => entry(2, 4, -10, false, "２  ４\tしのに\t　　　　　　中旗１本返す"),
        (2, 5) => entry(2, 5, 0, false, "２  ５\tごにごに\t　　　　旗の移動なし"),
        (2, 6) => entry(2, 6, 1, false, "２  ６\tろくに\t　　　　　　小旗１本もらう"),
        (3, 4) => entry(3, 4, 0, false, "３  ４\tしさまのかんかんど　旗の移動なし"),
        (3, 5) => entry(3, 5, 0, false, "３  ５\tごさまのかんかんど　旗の移動なし"),
        (3, 6) => entry(3, 6, 1, false, "３  ６\tろくさん\t　　　　小旗１本もらう"),
        (4, 5) => entry(4, 5, 0, false, "４  ５\tごっしりはなかみ　　旗の移動なし"),
        (4, 6) => entry(4, 6, 1, false, "４  ６\tしろく\t　　　　　　小旗１本もらう"),
        (5, 6) => entry(5, 6, 1, false, "５  ６\tごろく\t　　　　　　小旗１本もらう"),
        _ => entry(5, 6, 1, false, "５  ６\tごろく\t　　　　　　小旗１本もらう"),
    }
}

/// Looks up the outcome of a roll. The two faces may come in either order;
/// every pair of faces has an entry.
pub fn lookup(d1: u8, d2: u8) -> (r: HatagenpeiCommand)
    requires
        is_face(d1),
        is_face(d2),
    ensures
        is_outcome(r, d1, d2),
{
    if d1 <= d2 {
        table_entry(d1, d2)
    } else {
        table_entry(d2, d1)
    }
}

/// The table does not depend on the order of the faces: `(d1, d2)` and
/// `(d2, d1)` name the same entry, and every pair of faces has one, with
/// doubles always giving two tokens and a reroll.
pub proof fn lemma_outcome_symmetric(d1: u8, d2: u8)
    requires
        is_face(d1),
        is_face(d2),
    ensures
        ordered(d1, d2) == ordered(d2, d1),
        forall|c: HatagenpeiCommand| is_outcome(c, d1, d2) <==> is_outcome(c, d2, d1),
        d1 == d2 ==> point_of(d1, d2) == 2 && again_of(d1, d2),
{
}

} // verus!
