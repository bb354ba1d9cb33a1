//! The session controller: one call of `step` plays the human player's turn
//! and then the bot's, writes a transcript, and keeps the store up to date.

use crate::dice::fresh_seed;
use crate::game::{
    after_turn, initial_view, lemma_turn_conserves_tokens, lemma_turn_keeps_names, playable,
    reports, state_of, turn_of, valid_pair, GameLog, GameState, Hatagenpei, Player,
    PlayerTurn, PlayerView, Score,
};
use crate::outcome::{explain_of, is_entry};
use crate::score_operator::{
    lists_records, opt_view, progress_of, tally_has_room, with_progress, with_result,
    without_progress, Progress, ProgressView, ScoreOperator, StoreView, WinLose,
};
use crate::transcript::{
    command_lines, push_line, push_turn_lines, roll_lines, texts, turn_report_lines, win_lines,
    winner_name,
};
use vstd::prelude::*;

verus! {

/// Tokens each side holds when a game starts: some tens plus nine, so that
/// small flags can always be changed.
pub const HATAGENPEI_INIT_SCORE: i32 = 29;

/// Where game progress and tallies are kept.
pub enum DataStore {
    Postgre { uri: String },
    OnMemory,
}

/// What one call of `step` produced.
pub struct StepResult {
    /// The transcript, one line per entry.
    pub logs: Vec<String>,
    /// Whether the game ended in this call.
    pub is_over: bool,
    /// Whether the game started in this call.
    pub is_start: bool,
}

/// Plays games between human players and the bot named `bot_name`, kept in
/// a store of type `S`.
pub struct HatagenpeiController<S: ScoreOperator> {
    bot_name: String,
    score_operator: S,
}

/// The controller as a value: the bot's name and what its store holds.
pub struct ControllerView {
    pub bot_name: Seq<char>,
    pub store: StoreView,
}

/// A side at the start of a game: the initial tokens and the banner held,
/// nothing captured.
pub open spec fn fresh_player(name: Seq<char>) -> PlayerView {
    PlayerView {
        my_score: Score { score: HATAGENPEI_INIT_SCORE, matoi: true },
        got_score: Score { score: 0, matoi: false },
        name,
    }
}

/// The progress of a game that has just started.
pub open spec fn fresh_progress(user: Seq<char>, bot: Seq<char>) -> ProgressView {
    ProgressView { user: fresh_player(user), bot: fresh_player(bot) }
}

/// A stored game that can go on: valid counts, and no banner captured yet.
pub open spec fn resumable(p: ProgressView) -> bool {
    valid_pair(p.user, p.bot) && state_of(p.user, p.bot) == GameState::YetPlaying
}

/// What a step asks of the store once it has played.
pub enum StoreAction {
    /// The game goes on: save this progress.
    SaveProgress(Progress),
    /// The game is over: remove the progress and count a win for the
    /// player when this holds, else a loss.
    Finish(bool),
}

/// A step decided from the progress that was read: its result, the fresh
/// progress to save first when the game starts, and the final write.
pub struct StepPlan {
    pub result: StepResult,
    pub fresh: Option<Progress>,
    pub action: StoreAction,
}

/// A store action as a value.
pub enum ActionView {
    Save(ProgressView),
    Finish(bool),
}

pub open spec fn action_view(a: StoreAction) -> ActionView {
    match a {
        StoreAction::SaveProgress(p) => ActionView::Save(p@),
        StoreAction::Finish(won) => ActionView::Finish(won),
    }
}

/// A step plan as a value.
pub struct PlanView {
    pub logs: Seq<Seq<char>>,
    pub is_over: bool,
    pub is_start: bool,
    pub action: ActionView,
}

/// The step of `name` against the bot `bot` when `existing` was read from
/// the store, the engine seeded with `seed`. Without progress a fresh game
/// starts. The player's turn is played, then, if the game goes on, the
/// bot's. A decided game names its winner and is finished; an undecided one
/// is saved as it stands after both turns.
pub open spec fn plan_spec(
    existing: Option<ProgressView>,
    bot: Seq<char>,
    name: Seq<char>,
    seed: u64,
) -> PlanView {
    let is_start = existing is None;
    let p = if is_start {
        fresh_progress(name, bot)
    } else {
        existing->0
    };
    let e0 = initial_view(p.user, p.bot, PlayerTurn::Player1, seed);
    let t1 = turn_of(e0);
    let lines1 = turn_report_lines(e0);
    let st1 = state_of(t1.0, t1.1);
    if st1 != GameState::YetPlaying {
        PlanView {
            logs: lines1 + win_lines(winner_name(st1, name, bot)),
            is_over: true,
            is_start,
            action: ActionView::Finish(st1 == GameState::Player1Win),
        }
    } else {
        let e1 = after_turn(e0);
        let t2 = turn_of(e1);
        let lines2 = lines1 + turn_report_lines(e1);
        let st2 = state_of(t2.0, t2.1);
        if st2 == GameState::YetPlaying {
            PlanView {
                logs: lines2,
                is_over: false,
                is_start,
                action: ActionView::Save(ProgressView { user: t2.0, bot: t2.1 }),
            }
        } else {
            PlanView {
                logs: lines2 + win_lines(winner_name(st2, name, bot)),
                is_over: true,
                is_start,
                action: ActionView::Finish(st2 == GameState::Player1Win),
            }
        }
    }
}

/// `r` is the plan `v` of a step of `name` against `bot`.
pub open spec fn is_plan(r: StepPlan, v: PlanView, name: Seq<char>, bot: Seq<char>) -> bool {
    &&& texts(r.result.logs@) == v.logs
    &&& r.result.is_over == v.is_over
    &&& r.result.is_start == v.is_start
    &&& action_view(r.action) == v.action
    &&& opt_view(r.fresh) == if v.is_start {
        Some(fresh_progress(name, bot))
    } else {
        None
    }
}

/// The store after the writes of plan `v`: the fresh progress when the game
/// started, then the final write.
pub open spec fn apply_plan(s: StoreView, name: Seq<char>, bot: Seq<char>, v: PlanView) -> StoreView {
    let s1 = if v.is_start {
        with_progress(s, fresh_progress(name, bot))
    } else {
        s
    };
    match v.action {
        ActionView::Save(p) => with_progress(s1, p),
        ActionView::Finish(won) => with_result(without_progress(s1, name), name, won),
    }
}

/// The result of a step, and the store after it.
pub struct StepView {
    pub logs: Seq<Seq<char>>,
    pub is_over: bool,
    pub is_start: bool,
    pub store: StoreView,
}

/// One step of `name` against the bot `bot` on store `s`: the plan made from
/// what the store holds for `name`, and the store after its writes.
pub open spec fn step_spec(s: StoreView, bot: Seq<char>, name: Seq<char>, seed: u64) -> StepView {
    let v = plan_spec(progress_of(s, name), bot, name, seed);
    StepView { logs: v.logs, is_over: v.is_over, is_start: v.is_start, store: apply_plan(s, name, bot, v) }
}

/// `r`, with the controller `c` after the call, is the step `v`.
pub open spec fn is_step(r: StepResult, c: ControllerView, v: StepView) -> bool {
    &&& texts(r.logs@) == v.logs
    &&& r.is_over == v.is_over
    &&& r.is_start == v.is_start
    &&& c.store == v.store
}

/// What `step` asks of the store: a game kept for `name` can go on, and the
/// tally of `name` can still grow.
pub open spec fn can_step(s: StoreView, name: Seq<char>) -> bool {
    &&& (progress_of(s, name) matches Some(p) ==> resumable(p))
    &&& tally_has_room(s, name)
}

/// Session lifecycle: a step for a player without stored progress starts a
/// game, and if the game is not over after the step its progress is kept
/// under the player's name; a step that ends a game removes the progress,
/// so the next step for that player starts a new game.
pub proof fn lemma_session_lifecycle(
    s: StoreView,
    bot: Seq<char>,
    name: Seq<char>,
    seed: u64,
    next_seed: u64,
)
    ensures
        progress_of(s, name) is None ==> step_spec(s, bot, name, seed).is_start,
        progress_of(s, name) is None && !step_spec(s, bot, name, seed).is_over ==> progress_of(
            step_spec(s, bot, name, seed).store,
            name,
        ) is Some,
        step_spec(s, bot, name, seed).is_over ==> progress_of(
            step_spec(s, bot, name, seed).store,
            name,
        ) is None && step_spec(step_spec(s, bot, name, seed).store, bot, name, next_seed).is_start,
{
    let p = fresh_progress(name, bot);
    let e0 = initial_view(p.user, p.bot, PlayerTurn::Player1, seed);
    lemma_turn_keeps_names(e0);
    lemma_turn_keeps_names(after_turn(e0));
}

/// A step keeps the store fit for the next one: whatever it leaves stored
/// for the player can go on.
pub proof fn lemma_step_leaves_resumable(s: StoreView, bot: Seq<char>, name: Seq<char>, seed: u64)
    requires
        can_step(s, name),
    ensures
        progress_of(step_spec(s, bot, name, seed).store, name) matches Some(p) ==> resumable(p),
{
    let existing = progress_of(s, name);
    let p = if existing is None {
        fresh_progress(name, bot)
    } else {
        existing->0
    };
    let e0 = initial_view(p.user, p.bot, PlayerTurn::Player1, seed);
    lemma_turn_conserves_tokens(e0);
    lemma_turn_conserves_tokens(after_turn(e0));
}

impl<S: ScoreOperator> View for HatagenpeiController<S> {
    type V = ControllerView;

    closed spec fn view(&self) -> ControllerView {
        ControllerView { bot_name: self.bot_name@, store: self.score_operator.store_view() }
    }
}

/// Whether a stored game can go on.
pub fn is_resumable(p: &Progress) -> (r: bool)
    ensures
        r == resumable(p@),
{
    let a = p.user.my_score.score;
    let b = p.user.got_score.score;
    let c = p.bot.my_score.score;
    let d = p.bot.got_score.score;
    a >= 0 && b >= 0 && c >= 0 && d >= 0 && a as i64 + b as i64 + c as i64 + d as i64
        <= i32::MAX as i64 && !p.user.got_score.matoi && !p.bot.got_score.matoi
}

/// Plays the turn of `game` and appends its transcript, with the winner's
/// line when the turn decides the game.
fn play_turn(
    game: &mut Hatagenpei,
    logs: &mut Vec<String>,
    player_name: &str,
    bot_name: &String,
) -> (log: GameLog)
    requires
        playable(old(game)@),
    ensures
        final(game)@ == after_turn(old(game)@),
        reports(log, old(game)@),
        valid_pair(log.player1@, log.player2@),
        ({
            let t = turn_of(old(game)@);
            let st = state_of(t.0, t.1);
            texts(final(logs)@) == texts(old(logs)@) + turn_report_lines(old(game)@) + if st
                == GameState::YetPlaying {
                Seq::empty()
            } else {
                win_lines(winner_name(st, player_name@, bot_name@))
            }
        }),
{
    let ghost e = game@;
    let ghost t = turn_of(e);
    proof {
        lemma_turn_conserves_tokens(e);
    }
    let game_log = game.next().unwrap();
    assert(command_lines(game_log.commands@) =~= roll_lines(t.2)) by {
        assert forall|i: int| 0 <= i < t.2.len() implies #[trigger] game_log.commands@[i].explain@
            == explain_of(t.2[i].0, t.2[i].1) by {
            assert(is_entry(game_log.commands@[i], t.2[i].0, t.2[i].1));
        }
    }
    push_turn_lines(logs, &game_log);
    let ghost mid = texts(logs@);
    match game_log.game_state {
        GameState::YetPlaying => {
            assert(texts(logs@) =~= texts(old(logs)@) + turn_report_lines(e) + Seq::empty());
        },
        GameState::Player1Win => {
            push_line(logs, String::from_str(player_name).concat(" の勝ち"));
            push_line(logs, String::from_str(""));
            assert(texts(logs@) =~= mid + win_lines(player_name@));
        },
        GameState::Player2Win => {
            push_line(logs, bot_name.clone().concat(" の勝ち"));
            push_line(logs, String::from_str(""));
            assert(texts(logs@) =~= mid + win_lines(bot_name@));
        },
    }
    game_log
}

/// Decides a step from the progress `existing` that was read for the
/// player: plays the player's turn and, unless that decided the game, the
/// bot's, and says what the store is to do.
#[verifier::rlimit(40)]
pub fn plan_step(existing: Option<Progress>, bot_name: &String, player_name: &str, seed: u64) -> (r:
    StepPlan)
    requires
        existing matches Some(p) ==> resumable(p@),
    ensures
        is_plan(r, plan_spec(opt_view(existing), bot_name@, player_name@, seed), player_name@, bot_name@),
{
    let is_start = existing.is_none();
    let progress = match existing {
        Some(p) => p,
        None => Progress::new(
            &Player::new(
                String::from_str(player_name),
                Score { score: HATAGENPEI_INIT_SCORE, matoi: true },
                Score { score: 0, matoi: false },
            ),
            &Player::new(
                bot_name.clone(),
                Score { score: HATAGENPEI_INIT_SCORE, matoi: true },
                Score { score: 0, matoi: false },
            ),
        ),
    };
    let fresh = if is_start {
        Some(progress.duplicate())
    } else {
        None
    };
    let mut game = Hatagenpei::new(progress.user, progress.bot, PlayerTurn::Player1, seed);
    let ghost e0 = game@;
    let mut logs: Vec<String> = Vec::new();
    assert(texts(logs@) =~= Seq::<Seq<char>>::empty());
    let first = play_turn(&mut game, &mut logs, player_name, bot_name);
    let action = if first.game_state != GameState::YetPlaying {
        StoreAction::Finish(first.game_state == GameState::Player1Win)
    } else {
        proof {
            lemma_turn_conserves_tokens(e0);
        }
        let second = play_turn(&mut game, &mut logs, player_name, bot_name);
        if second.game_state == GameState::YetPlaying {
            StoreAction::SaveProgress(Progress::new(&second.player1, &second.player2))
        } else {
            StoreAction::Finish(second.game_state == GameState::Player1Win)
        }
    };
    let is_over = match action {
        StoreAction::SaveProgress(_) => false,
        StoreAction::Finish(_) => true,
    };
    let ghost v = plan_spec(opt_view(existing), bot_name@, player_name@, seed);
    assert(texts(logs@) =~= v.logs);
    StepPlan { result: StepResult { logs, is_over, is_start }, fresh, action }
}

impl<S: ScoreOperator> HatagenpeiController<S> {
    pub fn new(operator: S, bot_name: &String) -> (r: HatagenpeiController<S>)
        ensures
            r@ == (ControllerView { bot_name: bot_name@, store: operator.store_view() }),
            r.well_formed() == operator.well_formed(),
    {
        HatagenpeiController { bot_name: bot_name.clone(), score_operator: operator }
    }

    /// The store is well formed.
    pub closed spec fn well_formed(&self) -> bool {
        self.score_operator.well_formed()
    }

    /// Every player's tally.
    pub fn get_win_loses(&self) -> (r: Vec<WinLose>)
        requires
            self.well_formed(),
        ensures
            lists_records(r@, self@.store),
    {
        self.score_operator.get_win_loses()
    }

    /// Whether `step` may be called for `player_name`: a game kept for the
    /// player can go on, and the player's tally can still grow.
    pub fn can_step_now(&mut self, player_name: &str) -> (r: bool)
        requires
            old(self).well_formed(),
        ensures
            final(self).well_formed(),
            final(self)@ == old(self)@,
            r == can_step(old(self)@.store, player_name@),
    {
        let ghost s = self@.store;
        let kept_ok = match self.score_operator.get_progress(player_name) {
            Some(p) => is_resumable(&p),
            None => true,
        };
        if !kept_ok {
            return false;
        }
        let records = self.score_operator.get_win_loses();
        let key = String::from_str(player_name);
        let mut i: usize = 0;
        while i < records.len()
            invariant
                i <= records@.len(),
                lists_records(records@, s),
                self.well_formed(),
                self@ == old(self)@,
                s == old(self)@.store,
                key@ == player_name@,
                progress_of(s, player_name@) matches Some(p) ==> resumable(p),
                forall|j: int| 0 <= j < i ==> records@[j].name@ != key@,
            decreases records@.len() - i,
        {
            if records[i].name == key {
                assert(s.records.contains_key(records@[i as int].name@));
                return records[i].win < i32::MAX && records[i].lose < i32::MAX;
            }
            i = i + 1;
        }
        proof {
            if s.records.contains_key(key@) {
                let j = choose|j: int| 0 <= j < records@.len() && #[trigger] records@[j].name@ == key@;
                assert(records@[j].name@ != key@);
            }
        }
        true
    }

    /// One step with the engine seeded by `seed`: the plan made from what
    /// the store holds for the player, then its writes.
    pub fn step_with_seed(&mut self, player_name: &str, seed: u64) -> (r: StepResult)
        requires
            old(self).well_formed(),
            can_step(old(self)@.store, player_name@),
        ensures
            final(self).well_formed(),
            final(self)@.bot_name == old(self)@.bot_name,
            is_step(
                r,
                final(self)@,
                step_spec(old(self)@.store, old(self)@.bot_name, player_name@, seed),
            ),
    {
        let existing = self.score_operator.get_progress(player_name);
        let plan = plan_step(existing, &self.bot_name, player_name, seed);
        match &plan.fresh {
            Some(p) => {
                self.score_operator.insert_progress(p);
            },
            None => {},
        }
        match &plan.action {
            StoreAction::SaveProgress(p) => {
                self.score_operator.insert_progress(p);
            },
            StoreAction::Finish(won) => {
                self.score_operator.delete_progress(player_name);
                self.score_operator.update_winloses(player_name, *won);
            },
        }
        plan.result
    }

    /// One step of the player's game against the bot, with a fresh seed: the
    /// result is the step that some seed gives.
    pub fn step(&mut self, player_name: &str) -> (r: StepResult)
        requires
            old(self).well_formed(),
            can_step(old(self)@.store, player_name@),
        ensures
            final(self).well_formed(),
            final(self)@.bot_name == old(self)@.bot_name,
            exists|seed: u64|
                is_step(
                    r,
                    final(self)@,
                    #[trigger] step_spec(old(self)@.store, old(self)@.bot_name, player_name@, seed),
                ),
    {
        let seed = fresh_seed();
        self.step_with_seed(player_name, seed)
    }
}

} // verus!
