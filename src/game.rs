//! The game engine: two players, whose turn it is, and a seeded generator.
//! One call of `next` plays one turn, a chain of rolls by the same player.

use crate::dice::{draw_at, draw_byte, seed_generator, seeded_draw};
use crate::outcome::{is_entry, is_outcome, lookup, ordered, HatagenpeiCommand};
use rand_xoshiro::Xoshiro256StarStar;
use vstd::prelude::*;

verus! {

/// A count of flag tokens and whether the banner token (matoi) is held.
#[derive(Debug, Clone, Copy, PartialEq, Eq)]
pub struct Score {
    /// Number of flag tokens.
    pub score: i32,
    /// Whether the banner token is held; losing it loses the game.
    pub matoi: bool,
}

/// A player: the tokens at stake and the tokens taken from the opponent.
#[derive(Debug, Clone, PartialEq)]
pub struct Player {
    pub my_score: Score,
    pub got_score: Score,
    pub name: String,
}

/// A player as a value, the name as its characters.
pub struct PlayerView {
    pub my_score: Score,
    pub got_score: Score,
    pub name: Seq<char>,
}

impl View for Player {
    type V = PlayerView;

    open spec fn view(&self) -> PlayerView {
        PlayerView { my_score: self.my_score, got_score: self.got_score, name: self.name@ }
    }
}

#[derive(Debug, Clone, Copy, PartialEq, Eq, Structural)]
pub enum PlayerTurn {
    Player1,
    Player2,
}

#[derive(Debug, PartialEq, Eq, Structural)]
pub enum GameState {
    Player1Win,
    Player2Win,
    YetPlaying,
}

/// What one turn did: who rolled, the outcomes rolled, both players
/// afterwards and the resulting state of the game.
#[derive(Debug)]
pub struct GameLog {
    pub player_turn: PlayerTurn,
    pub commands: Vec<HatagenpeiCommand>,
    pub player1: Player,
    pub player2: Player,
    pub game_state: GameState,
}

/// The game engine: both players, whose turn it is, and the generator that
/// rolls the dice.
pub struct Hatagenpei {
    player1: Player,
    player2: Player,
    turn: PlayerTurn,
    rng: Xoshiro256StarStar,
}

/// The engine as a value: both players, whose turn it is, and the bytes
/// that its generator will yield, in order.
pub struct EngineView {
    pub player1: PlayerView,
    pub player2: PlayerView,
    pub turn: PlayerTurn,
    pub draws: spec_fn(nat) -> u8,
}

pub open spec fn other(turn: PlayerTurn) -> PlayerTurn {
    match turn {
        PlayerTurn::Player1 => PlayerTurn::Player2,
        PlayerTurn::Player2 => PlayerTurn::Player1,
    }
}

/// The game is won by whoever has captured the other side's banner.
pub open spec fn state_of(p1: PlayerView, p2: PlayerView) -> GameState {
    if p1.got_score.matoi {
        GameState::Player1Win
    } else if p2.got_score.matoi {
        GameState::Player2Win
    } else {
        GameState::YetPlaying
    }
}

/// The sum of all four token counts.
pub open spec fn total_tokens(p1: PlayerView, p2: PlayerView) -> int {
    p1.my_score.score + p1.got_score.score + p2.my_score.score + p2.got_score.score
}

/// No count is negative, and the total fits an `i32`.
pub open spec fn valid_pair(p1: PlayerView, p2: PlayerView) -> bool {
    &&& p1.my_score.score >= 0
    &&& p1.got_score.score >= 0
    &&& p2.my_score.score >= 0
    &&& p2.got_score.score >= 0
    &&& total_tokens(p1, p2) <= i32::MAX
}

/// `payer` owes `amount` to `receiver`. At most the payer's held tokens move;
/// a payer who cannot pay in full also gives up the banner, which the
/// receiver captures.
pub open spec fn pay(payer: PlayerView, receiver: PlayerView, amount: int) -> (PlayerView, PlayerView) {
    let held = payer.my_score.score as int;
    let short = amount > held;
    let v = if short {
        held
    } else {
        amount
    };
    (
        PlayerView {
            my_score: Score { score: (held - v) as i32, matoi: payer.my_score.matoi && !short },
            got_score: payer.got_score,
            name: payer.name,
        },
        PlayerView {
            my_score: receiver.my_score,
            got_score: Score {
                score: (receiver.got_score.score + v) as i32,
                matoi: receiver.got_score.matoi || short,
            },
            name: receiver.name,
        },
    )
}

/// Whether player one pays when `turn` rolls an outcome worth `point`: a
/// positive point flows to the player who rolled, any other away from them.
pub open spec fn player1_pays(turn: PlayerTurn, point: int) -> bool {
    (point > 0) != (turn == PlayerTurn::Player1)
}

/// Both players after `turn` rolled an outcome worth `point`.
pub open spec fn apply_point(p1: PlayerView, p2: PlayerView, turn: PlayerTurn, point: int) -> (
    PlayerView,
    PlayerView,
) {
    let amount = if point < 0 {
        -point
    } else {
        point
    };
    if player1_pays(turn, point) {
        pay(p1, p2, amount)
    } else {
        let (b, a) = pay(p2, p1, amount);
        (a, b)
    }
}

/// The face that a drawn byte gives.
pub open spec fn face(b: u8) -> u8 {
    (b % 6 + 1) as u8
}

/// The `k`-th roll of a turn, faces in ascending order: two bytes per roll.
pub open spec fn roll(draws: spec_fn(nat) -> u8, k: nat) -> (u8, u8) {
    ordered(face(draws(2 * k)), face(draws(2 * k + 1)))
}

/// The held count of the player who does not roll.
pub open spec fn opponent_held(p1: PlayerView, p2: PlayerView, turn: PlayerTurn) -> int {
    if turn == PlayerTurn::Player1 {
        p2.my_score.score as int
    } else {
        p1.my_score.score as int
    }
}

/// The rest of a turn from its `k`-th roll on: both players at its end and
/// the rolls made. A roll that rerolls and leaves the game undecided is
/// followed by another.
pub open spec fn play_from(
    p1: PlayerView,
    p2: PlayerView,
    turn: PlayerTurn,
    draws: spec_fn(nat) -> u8,
    k: nat,
) -> (PlayerView, PlayerView, Seq<(u8, u8)>)
    decreases opponent_held(p1, p2, turn),
{
    let (lo, hi) = roll(draws, k);
    let (q1, q2) = apply_point(p1, p2, turn, crate::outcome::point_of(lo, hi));
    if crate::outcome::again_of(lo, hi) && state_of(q1, q2) == GameState::YetPlaying {
        let r = play_from(q1, q2, turn, draws, k + 1);
        (r.0, r.1, seq![(lo, hi)] + r.2)
    } else {
        (q1, q2, seq![(lo, hi)])
    }
}

/// The whole turn that `e` plays next.
pub open spec fn turn_of(e: EngineView) -> (PlayerView, PlayerView, Seq<(u8, u8)>) {
    play_from(e.player1, e.player2, e.turn, e.draws, 0)
}

/// The engine after it has played the turn `turn_of(e)`.
pub open spec fn after_turn(e: EngineView) -> EngineView {
    let t = turn_of(e);
    EngineView {
        player1: t.0,
        player2: t.1,
        turn: other(e.turn),
        draws: |i: nat| (e.draws)(i + 2 * t.2.len()),
    }
}

/// `log` reports the turn `turn_of(e)`.
pub open spec fn reports(log: GameLog, e: EngineView) -> bool {
    let t = turn_of(e);
    &&& log.player_turn == e.turn
    &&& log.player1@ == t.0
    &&& log.player2@ == t.1
    &&& log.game_state == state_of(t.0, t.1)
    &&& log.commands@.len() == t.2.len()
    &&& forall|i: int|
        0 <= i < t.2.len() ==> is_entry(#[trigger] log.commands@[i], t.2[i].0, t.2[i].1)
}

/// An engine whose players are valid and still playing.
pub open spec fn playable(e: EngineView) -> bool {
    valid_pair(e.player1, e.player2) && state_of(e.player1, e.player2) == GameState::YetPlaying
}

/// The engine that `Hatagenpei::new` makes.
pub open spec fn initial_view(p1: PlayerView, p2: PlayerView, turn: PlayerTurn, seed: u64) -> EngineView {
    EngineView { player1: p1, player2: p2, turn, draws: |i: nat| seeded_draw(seed, i) }
}

/// One roll only moves tokens: the four counts keep their sum and stay valid.
pub proof fn lemma_roll_conserves_tokens(p1: PlayerView, p2: PlayerView, turn: PlayerTurn, point: int)
    requires
        valid_pair(p1, p2),
    ensures
        valid_pair(apply_point(p1, p2, turn, point).0, apply_point(p1, p2, turn, point).1),
        total_tokens(apply_point(p1, p2, turn, point).0, apply_point(p1, p2, turn, point).1)
            == total_tokens(p1, p2),
{
}

/// The rest of a turn only moves tokens.
pub proof fn lemma_play_conserves_tokens(
    p1: PlayerView,
    p2: PlayerView,
    turn: PlayerTurn,
    draws: spec_fn(nat) -> u8,
    k: nat,
)
    requires
        valid_pair(p1, p2),
    ensures
        valid_pair(play_from(p1, p2, turn, draws, k).0, play_from(p1, p2, turn, draws, k).1),
        total_tokens(play_from(p1, p2, turn, draws, k).0, play_from(p1, p2, turn, draws, k).1)
            == total_tokens(p1, p2),
    decreases opponent_held(p1, p2, turn),
{
    let (lo, hi) = roll(draws, k);
    let (q1, q2) = apply_point(p1, p2, turn, crate::outcome::point_of(lo, hi));
    lemma_roll_conserves_tokens(p1, p2, turn, crate::outcome::point_of(lo, hi));
    if crate::outcome::again_of(lo, hi) && state_of(q1, q2) == GameState::YetPlaying {
        lemma_play_conserves_tokens(q1, q2, turn, draws, k + 1);
    }
}

/// Token conservation: a turn never creates or destroys tokens. The sum of
/// both players' held and captured counts is the same after the turn as
/// before, and no count goes below zero; `next` either plays such a turn or
/// changes nothing, so the sum is kept across any sequence of calls.
pub proof fn lemma_turn_conserves_tokens(e: EngineView)
    requires
        valid_pair(e.player1, e.player2),
    ensures
        valid_pair(after_turn(e).player1, after_turn(e).player2),
        total_tokens(after_turn(e).player1, after_turn(e).player2) == total_tokens(
            e.player1,
            e.player2,
        ),
{
    lemma_play_conserves_tokens(e.player1, e.player2, e.turn, e.draws, 0);
}

/// The win trigger: when the payer holds fewer tokens than a roll asks of
/// them, the payer gives up the banner, the receiver captures it, and the
/// game is won by the receiver's side.
pub proof fn lemma_short_payment_wins(p1: PlayerView, p2: PlayerView, turn: PlayerTurn, point: int)
    requires
        valid_pair(p1, p2),
        state_of(p1, p2) == GameState::YetPlaying,
        (if point < 0 {
            -point
        } else {
            point
        }) > (if player1_pays(turn, point) {
            p1.my_score.score
        } else {
            p2.my_score.score
        }),
    ensures
        player1_pays(turn, point) ==> {
            let (q1, q2) = apply_point(p1, p2, turn, point);
            &&& !q1.my_score.matoi
            &&& q2.got_score.matoi
            &&& state_of(q1, q2) == GameState::Player2Win
        },
        !player1_pays(turn, point) ==> {
            let (q1, q2) = apply_point(p1, p2, turn, point);
            &&& !q2.my_score.matoi
            &&& q1.got_score.matoi
            &&& state_of(q1, q2) == GameState::Player1Win
        },
{
}

/// The rest of a turn keeps both players' names.
pub proof fn lemma_play_keeps_names(
    p1: PlayerView,
    p2: PlayerView,
    turn: PlayerTurn,
    draws: spec_fn(nat) -> u8,
    k: nat,
)
    ensures
        play_from(p1, p2, turn, draws, k).0.name == p1.name,
        play_from(p1, p2, turn, draws, k).1.name == p2.name,
    decreases opponent_held(p1, p2, turn),
{
    let (lo, hi) = roll(draws, k);
    let (q1, q2) = apply_point(p1, p2, turn, crate::outcome::point_of(lo, hi));
    if crate::outcome::again_of(lo, hi) && state_of(q1, q2) == GameState::YetPlaying {
        lemma_play_keeps_names(q1, q2, turn, draws, k + 1);
    }
}

/// A turn keeps both players' names.
pub proof fn lemma_turn_keeps_names(e: EngineView)
    ensures
        after_turn(e).player1.name == e.player1.name,
        after_turn(e).player2.name == e.player2.name,
{
    lemma_play_keeps_names(e.player1, e.player2, e.turn, e.draws, 0);
}

/// Determinism: the turn an engine plays depends only on its players, whose
/// turn it is and the bytes its generator yields. Engines made by
/// `Hatagenpei::new` from the same players, first turn and seed yield the
/// same bytes, so they play the same turn and end in the same state.
pub proof fn lemma_same_seed_same_turn(
    p1: PlayerView,
    p2: PlayerView,
    turn: PlayerTurn,
    seed: u64,
    e: EngineView,
    f: EngineView,
)
    requires
        e.player1 == p1 && e.player2 == p2 && e.turn == turn,
        f.player1 == p1 && f.player2 == p2 && f.turn == turn,
        forall|i: nat| #[trigger] (e.draws)(i) == seeded_draw(seed, i),
        forall|i: nat| #[trigger] (f.draws)(i) == seeded_draw(seed, i),
    ensures
        e == initial_view(p1, p2, turn, seed),
        turn_of(e) == turn_of(f),
        after_turn(e) == after_turn(f),
{
    assert(e.draws =~= initial_view(p1, p2, turn, seed).draws);
    assert(e.draws =~= f.draws);
}

impl View for Hatagenpei {
    type V = EngineView;

    closed spec fn view(&self) -> EngineView {
        EngineView {
            player1: self.player1@,
            player2: self.player2@,
            turn: self.turn,
            draws: |i: nat| draw_at(self.rng, i),
        }
    }
}

impl Player {
    pub fn new(name: String, my_score: Score, got_score: Score) -> (r: Player)
        ensures
            r == (Player { my_score, got_score, name }),
    {
        Player { my_score, got_score, name }
    }

    /// A copy of this player.
    pub fn duplicate(&self) -> (r: Player)
        ensures
            r == *self,
    {
        Player { my_score: self.my_score, got_score: self.got_score, name: self.name.clone() }
    }
}

/// Settles `amount` owed by `payer` to `receiver`.
fn transfer(payer: &mut Player, receiver: &mut Player, amount: i32)
    requires
        amount >= 0,
        valid_pair(old(payer)@, old(receiver)@),
    ensures
        (final(payer)@, final(receiver)@) == pay(old(payer)@, old(receiver)@, amount as int),
{
    if amount > payer.my_score.score {
        payer.my_score.matoi = false;
        receiver.got_score.matoi = true;
    }
    let v = if amount < payer.my_score.score {
        amount
    } else {
        payer.my_score.score
    };
    payer.my_score.score = payer.my_score.score - v;
    receiver.got_score.score = receiver.got_score.score + v;
}

/// Moves tokens after `turn` rolled an outcome worth `point`: the player who
/// rolled receives a positive point and pays any other, at most what the
/// payer holds; a payer who falls short loses the banner to the receiver.
pub fn pay_point(player1: &mut Player, player2: &mut Player, turn: PlayerTurn, point: i32)
    requires
        valid_pair(old(player1)@, old(player2)@),
        point > i32::MIN,
    ensures
        (final(player1)@, final(player2)@) == apply_point(
            old(player1)@,
            old(player2)@,
            turn,
            point as int,
        ),
        valid_pair(final(player1)@, final(player2)@),
        total_tokens(final(player1)@, final(player2)@) == total_tokens(old(player1)@, old(player2)@),
{
    let amount: i32 = if point < 0 {
        -point
    } else {
        point
    };
    if (point > 0) != (turn == PlayerTurn::Player1) {
        transfer(player1, player2, amount);
    } else {
        transfer(player2, player1, amount);
    }
}

impl Hatagenpei {
    pub fn new(player1: Player, player2: Player, first_player: PlayerTurn, seed: u64) -> (r:
        Hatagenpei)
        ensures
            r@ == initial_view(player1@, player2@, first_player, seed),
    {
        let rng = seed_generator(seed);
        let r = Hatagenpei { player1, player2, turn: first_player, rng };
        assert(r@.draws =~= initial_view(player1@, player2@, first_player, seed).draws);
        r
    }

    /// Plays one turn: the player whose turn it is rolls until an outcome
    /// without a reroll comes up or the game is decided. Returns `None`, and
    /// changes nothing, when the game is already decided. Otherwise the turn
    /// passes to the other player, even when the game has just ended.
    pub fn next(&mut self) -> (r: Option<GameLog>)
        requires
            valid_pair(old(self)@.player1, old(self)@.player2),
        ensures
            !playable(old(self)@) ==> r is None && final(self)@ == old(self)@,
            playable(old(self)@) ==> r is Some && reports(r->0, old(self)@) && final(self)@
                == after_turn(old(self)@),
            valid_pair(final(self)@.player1, final(self)@.player2),
    {
        let ghost e0 = self@;
        let ghost t = turn_of(e0);
        let next_turn = match self.turn {
            PlayerTurn::Player1 => PlayerTurn::Player2,
            PlayerTurn::Player2 => PlayerTurn::Player1,
        };
        if self.get_game_state() != GameState::YetPlaying {
            return None;
        }
        let mut commands: Vec<HatagenpeiCommand> = Vec::new();
        let ghost mut k: nat = 0;
        assert(t.2.subrange(0, t.2.len() as int) =~= t.2);
        loop
            invariant_except_break
                state_of(self.player1@, self.player2@) == GameState::YetPlaying,
                k < t.2.len(),
                play_from(self.player1@, self.player2@, e0.turn, e0.draws, k) == (
                    t.0,
                    t.1,
                    t.2.subrange(k as int, t.2.len() as int),
                ),
            invariant
                self.turn == e0.turn,
                valid_pair(self.player1@, self.player2@),
                forall|i: nat| #[trigger] draw_at(self.rng, i) == (e0.draws)(i + 2 * k),
                k <= t.2.len(),
                commands@.len() == k,
                forall|i: int|
                    0 <= i < k ==> is_entry(#[trigger] commands@[i], t.2[i].0, t.2[i].1),
            ensures
                self.turn == e0.turn,
                valid_pair(self.player1@, self.player2@),
                self.player1@ == t.0,
                self.player2@ == t.1,
                forall|i: nat| #[trigger] draw_at(self.rng, i) == (e0.draws)(i + 2 * t.2.len()),
                commands@.len() == t.2.len(),
                forall|i: int|
                    0 <= i < t.2.len() ==> is_entry(#[trigger] commands@[i], t.2[i].0, t.2[i].1),
            decreases opponent_held(self.player1@, self.player2@, self.turn),
        {
            let ghost prev1 = self.player1@;
            let ghost prev2 = self.player2@;
            let ghost rng0 = self.rng;
            let ghost n = t.2.len();
            let cmd = Self::diceroll(&mut self.rng);
            let ghost lohi = roll(e0.draws, k);
            assert(draw_at(rng0, 0) == (e0.draws)(2 * k));
            assert(draw_at(rng0, 1) == (e0.draws)(2 * k + 1));
            assert(cmd.dice1 == lohi.0 && cmd.dice2 == lohi.1);
            let point = cmd.point;
            let again = cmd.again;
            commands.push(cmd);
            pay_point(&mut self.player1, &mut self.player2, self.turn, point);
            assert(t.2.subrange(k as int, n as int)[0] == t.2[k as int]);
            assert(t.2[k as int] == lohi);
            assert(play_from(prev1, prev2, e0.turn, e0.draws, k) == if again && state_of(
                self.player1@,
                self.player2@,
            ) == GameState::YetPlaying {
                let r = play_from(self.player1@, self.player2@, e0.turn, e0.draws, k + 1);
                (r.0, r.1, seq![lohi] + r.2)
            } else {
                (self.player1@, self.player2@, seq![lohi])
            });
            proof {
                k = k + 1;
            }
            assert forall|i: nat| #[trigger] draw_at(self.rng, i) == (e0.draws)(i + 2 * k) by {
                assert(draw_at(self.rng, i) == draw_at(rng0, i + 2));
                assert(draw_at(rng0, i + 2) == (e0.draws)((i + 2) + 2 * (k - 1) as nat));
            }
            if !again {
                assert(play_from(prev1, prev2, e0.turn, e0.draws, (k - 1) as nat).2 == seq![lohi]);
                assert(t.2.subrange((k - 1) as int, n as int) == seq![lohi]);
                assert(t.2.subrange((k - 1) as int, n as int).len() == 1);
                assert(n == k);
                break ;
            }
            if self.get_game_state() != GameState::YetPlaying {
                assert(play_from(prev1, prev2, e0.turn, e0.draws, (k - 1) as nat).2 == seq![lohi]);
                assert(t.2.subrange((k - 1) as int, n as int) == seq![lohi]);
                assert(t.2.subrange((k - 1) as int, n as int).len() == 1);
                assert(n == k);
                break ;
            }
            let ghost rest = play_from(self.player1@, self.player2@, e0.turn, e0.draws, k).2;
            assert(seq![lohi] + rest == t.2.subrange((k - 1) as int, n as int));
            assert((seq![lohi] + rest).len() == n - (k - 1));
            assert(rest =~= t.2.subrange(k as int, n as int)) by {
                assert forall|j: int| 0 <= j < rest.len() implies rest[j] == t.2[k + j] by {
                    assert((seq![lohi] + rest)[j + 1] == rest[j]);
                    assert(t.2.subrange((k - 1) as int, n as int)[j + 1] == t.2[k + j]);
                }
            }
            assert(rest.len() >= 1);
        }
        let game_log = GameLog {
            player_turn: self.turn,
            commands,
            player1: self.player1.duplicate(),
            player2: self.player2.duplicate(),
            game_state: self.get_game_state(),
        };
        self.turn = next_turn;
        assert(self@.draws =~= after_turn(e0).draws);
        Some(game_log)
    }

    /// Both players, as they stand.
    pub fn get_score(&self) -> (r: (&Player, &Player))
        ensures
            r.0@ == self@.player1,
            r.1@ == self@.player2,
    {
        (&self.player1, &self.player2)
    }

    fn get_game_state(&self) -> (r: GameState)
        ensures
            r == state_of(self.player1@, self.player2@),
    {
        if self.player1.got_score.matoi {
            GameState::Player1Win
        } else if self.player2.got_score.matoi {
            GameState::Player2Win
        } else {
            GameState::YetPlaying
        }
    }

    /// Rolls two dice and returns the outcome of the roll.
    fn diceroll(rng: &mut Xoshiro256StarStar) -> (r: HatagenpeiCommand)
        ensures
            is_outcome(r, face(draw_at(*old(rng), 0)), face(draw_at(*old(rng), 1))),
            forall|i: nat| #[trigger] draw_at(*final(rng), i) == draw_at(*old(rng), i + 2),
    {
        let b1 = draw_byte(rng);
        let b2 = draw_byte(rng);
        assert(b2 == draw_at(*old(rng), 1));
        assert forall|i: nat| #[trigger] draw_at(*rng, i) == draw_at(*old(rng), i + 2) by {
            assert(draw_at(*rng, i) == draw_at(*old(rng), (i + 1) + 1));
        }
        lookup(b1 % 6 + 1, b2 % 6 + 1)
    }
}

} // verus!
