//! Storage of game progress and of win/lose tallies, keyed by the human
//! player's name, behind one interface that every backend implements.

pub mod map;
pub mod postgre;

use crate::game::{Player, PlayerView};
use vstd::prelude::*;

verus! {

/// The resumable state of one game between a human player and the bot.
#[derive(Clone, Debug)]
pub struct Progress {
    pub user: Player,
    pub bot: Player,
}

/// The cumulative tally of one human player.
#[derive(Clone, Debug)]
pub struct WinLose {
    pub name: String,
    pub win: i32,
    pub lose: i32,
}

impl Progress {
    pub fn new(user: &Player, bot: &Player) -> (r: Progress)
        ensures
            r == (Progress { user: *user, bot: *bot }),
    {
        Progress { user: user.duplicate(), bot: bot.duplicate() }
    }

    /// A copy of this progress.
    pub fn duplicate(&self) -> (r: Progress)
        ensures
            r == *self,
    {
        Progress { user: self.user.duplicate(), bot: self.bot.duplicate() }
    }
}

impl WinLose {
    pub fn new(win: i32, lose: i32, name: &str) -> (r: WinLose)
        ensures
            r.win == win,
            r.lose == lose,
            r.name@ == name@,
    {
        WinLose { win, lose, name: String::from_str(name) }
    }

    /// A copy of this tally.
    pub fn duplicate(&self) -> (r: WinLose)
        ensures
            r == *self,
    {
        WinLose { name: self.name.clone(), win: self.win, lose: self.lose }
    }
}

/// A progress as a value.
pub struct ProgressView {
    pub user: PlayerView,
    pub bot: PlayerView,
}

impl View for Progress {
    type V = ProgressView;

    open spec fn view(&self) -> ProgressView {
        ProgressView { user: self.user@, bot: self.bot@ }
    }
}

/// The value of an optional progress.
pub open spec fn opt_view(p: Option<Progress>) -> Option<ProgressView> {
    match p {
        Some(q) => Some(q@),
        None => None,
    }
}

/// What a store holds: progress by player name, and each player's tally as
/// (wins, losses).
pub struct StoreView {
    pub progress: Map<Seq<char>, ProgressView>,
    pub records: Map<Seq<char>, (i32, i32)>,
}

/// The progress stored under `name`, if any.
pub open spec fn progress_of(s: StoreView, name: Seq<char>) -> Option<ProgressView> {
    if s.progress.contains_key(name) {
        Some(s.progress[name])
    } else {
        None
    }
}

/// The store after `p` is saved under its user's name, replacing what was
/// there.
pub open spec fn with_progress(s: StoreView, p: ProgressView) -> StoreView {
    StoreView { progress: s.progress.insert(p.user.name, p), records: s.records }
}

/// The store after the progress under `name` is removed.
pub open spec fn without_progress(s: StoreView, name: Seq<char>) -> StoreView {
    StoreView { progress: s.progress.remove(name), records: s.records }
}

/// The tally of `name`: (0, 0) before the first game ends.
pub open spec fn tally_of(s: StoreView, name: Seq<char>) -> (i32, i32) {
    if s.records.contains_key(name) {
        s.records[name]
    } else {
        (0, 0)
    }
}

/// Both counts of the tally of `name` can grow by one.
pub open spec fn tally_has_room(s: StoreView, name: Seq<char>) -> bool {
    tally_of(s, name).0 < i32::MAX && tally_of(s, name).1 < i32::MAX
}

/// The store after a game of `name` ended, won by the player when
/// `player_won` holds.
pub open spec fn with_result(s: StoreView, name: Seq<char>, player_won: bool) -> StoreView {
    let t = tally_of(s, name);
    StoreView {
        progress: s.progress,
        records: s.records.insert(
            name,
            if player_won {
                ((t.0 + 1) as i32, t.1)
            } else {
                (t.0, (t.1 + 1) as i32)
            },
        ),
    }
}

/// The tally of `name` after one more game: one more win when
/// `player_won`, else one more loss. `existing` is the tally kept so far,
/// if there is one.
pub fn next_winlose(existing: Option<WinLose>, name: &str, player_won: bool) -> (r: WinLose)
    requires
        existing matches Some(w) ==> w.win < i32::MAX && w.lose < i32::MAX,
    ensures
        r.name@ == (match existing {
            Some(w) => w.name@,
            None => name@,
        }),
        ({
            let (win, lose) = match existing {
                Some(w) => (w.win, w.lose),
                None => (0i32, 0i32),
            };
            &&& r.win == if player_won {
                win + 1
            } else {
                win as int
            }
            &&& r.lose == if player_won {
                lose as int
            } else {
                lose + 1
            }
        }),
{
    let mut win_lose = match existing {
        Some(w) => w,
        None => WinLose::new(0, 0, name),
    };
    if player_won {
        win_lose.win = win_lose.win + 1;
    } else {
        win_lose.lose = win_lose.lose + 1;
    }
    win_lose
}

/// `r` lists every tally of `s` once, in some order.
pub open spec fn lists_records(r: Seq<WinLose>, s: StoreView) -> bool {
    &&& forall|i: int|
        0 <= i < r.len() ==> s.records.contains_key(#[trigger] r[i].name@) && s.records[r[i].name@]
            == (r[i].win, r[i].lose)
    &&& forall|i: int, j: int| 0 <= i < j < r.len() ==> r[i].name@ != r[j].name@
    &&& forall|k: Seq<char>|
        s.records.contains_key(k) ==> exists|i: int| 0 <= i < r.len() && #[trigger] r[i].name@ == k
}

/// Round trip: whatever a store held before, saving `p` and then reading the
/// progress of `p`'s user gives back `p`. Every `ScoreOperator` states its
/// operations over these functions, so this holds of each backend.
pub proof fn lemma_put_then_get(s: StoreView, p: ProgressView)
    ensures
        progress_of(with_progress(s, p), p.user.name) == Some(p),
        with_progress(s, p).records == s.records,
{
}

/// A store of game progress and tallies. All keys are exact, case-sensitive
/// player names; saving under a name replaces what was there.
pub trait ScoreOperator {
    /// What the store holds.
    spec fn store_view(&self) -> StoreView;

    /// The backend's own well-formedness.
    spec fn well_formed(&self) -> bool;

    /// The progress of `player_name`, or `None` when it has none.
    fn get_progress(&mut self, player_name: &str) -> (r: Option<Progress>)
        requires
            old(self).well_formed(),
        ensures
            final(self).well_formed(),
            final(self).store_view() == old(self).store_view(),
            opt_view(r) == progress_of(old(self).store_view(), player_name@),
    ;

    /// Saves `progress` under its user's name, replacing any earlier one.
    fn insert_progress(&mut self, progress: &Progress) -> (r: bool)
        requires
            old(self).well_formed(),
        ensures
            final(self).well_formed(),
            final(self).store_view() == with_progress(old(self).store_view(), progress@),
            r,
    ;

    /// Removes the progress of `player_name`.
    fn delete_progress(&mut self, player_name: &str) -> (r: bool)
        requires
            old(self).well_formed(),
        ensures
            final(self).well_formed(),
            final(self).store_view() == without_progress(old(self).store_view(), player_name@),
            r,
    ;

    /// Counts one more win, or one more loss, for `player_name`.
    fn update_winloses(&mut self, player_name: &str, is_player_win: bool) -> (r: bool)
        requires
            old(self).well_formed(),
            tally_has_room(old(self).store_view(), player_name@),
        ensures
            final(self).well_formed(),
            final(self).store_view() == with_result(
                old(self).store_view(),
                player_name@,
                is_player_win,
            ),
            r,
    ;

    /// Every tally.
    fn get_win_loses(&self) -> (r: Vec<WinLose>)
        requires
            self.well_formed(),
        ensures
            lists_records(r@, self.store_view()),
    ;
}

} // verus!
