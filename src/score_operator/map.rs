//! The in-memory backend: lives as long as the process.

use crate::score_operator::{
    lists_records, next_winlose, tally_of, Progress, ProgressView, ScoreOperator, StoreView,
    WinLose,
};
use vstd::prelude::*;

verus! {

/// Progress and tallies in two vectors, each holding one entry per name.
/// Tallies are kept in the order in which their names compare as strings,
/// and are listed in that order.
pub struct ScoresInMap {
    score_map: Vec<Progress>,
    winlose_map: Vec<WinLose>,
    progress: Ghost<Map<Seq<char>, ProgressView>>,
    records: Ghost<Map<Seq<char>, (i32, i32)>>,
}

/// Names in the order in which strings compare: character by character,
/// a proper prefix first.
spec fn name_less(a: Seq<char>, b: Seq<char>) -> bool
    decreases a.len(),
{
    if a.len() == 0 {
        b.len() > 0
    } else if b.len() == 0 {
        false
    } else if a[0] != b[0] {
        a[0] < b[0]
    } else {
        name_less(a.drop_first(), b.drop_first())
    }
}

proof fn lemma_name_less_total(a: Seq<char>, b: Seq<char>)
    requires
        a != b,
    ensures
        name_less(a, b) || name_less(b, a),
    decreases a.len(),
{
    if a.len() == 0 && b.len() == 0 {
        assert(a =~= b);
    } else if a.len() > 0 && b.len() > 0 {
        if a[0] == b[0] {
            if a.drop_first() == b.drop_first() {
                assert(a =~= seq![a[0]] + a.drop_first());
                assert(b =~= seq![b[0]] + b.drop_first());
                assert(a == b);
            }
            lemma_name_less_total(a.drop_first(), b.drop_first());
        }
    }
}

proof fn lemma_name_less_trans(a: Seq<char>, b: Seq<char>, c: Seq<char>)
    requires
        name_less(a, b),
        name_less(b, c),
    ensures
        name_less(a, c),
    decreases a.len(),
{
    if a.len() > 0 && b.len() > 0 && c.len() > 0 && a[0] == b[0] && b[0] == c[0] {
        lemma_name_less_trans(a.drop_first(), b.drop_first(), c.drop_first());
    }
}

proof fn lemma_name_less_irreflexive(a: Seq<char>)
    ensures
        !name_less(a, a),
    decreases a.len(),
{
    if a.len() > 0 {
        lemma_name_less_irreflexive(a.drop_first());
    }
}

/// Compares two names as strings compare.
fn names_in_order(a: &str, b: &str) -> (r: bool)
    ensures
        r == name_less(a@, b@),
{
    let la = a.unicode_len();
    let lb = b.unicode_len();
    let mut i: usize = 0;
    assert(a@.subrange(0, la as int) =~= a@);
    assert(b@.subrange(0, lb as int) =~= b@);
    while i < la && i < lb
        invariant
            i <= la,
            i <= lb,
            la == a@.len(),
            lb == b@.len(),
            name_less(a@, b@) == name_less(a@.subrange(i as int, la as int), b@.subrange(i as int, lb as int)),
        decreases la - i,
    {
        let ca = a.get_char(i);
        let cb = b.get_char(i);
        let ghost sa = a@.subrange(i as int, la as int);
        let ghost sb = b@.subrange(i as int, lb as int);
        assert(sa[0] == ca && sb[0] == cb);
        if ca != cb {
            return ca < cb;
        }
        i = i + 1;
        assert(sa.drop_first() =~= a@.subrange(i as int, la as int));
        assert(sb.drop_first() =~= b@.subrange(i as int, lb as int));
    }
    i == la && i < lb
}

/// `v` holds each entry of `m` once, under its user's name.
spec fn progress_mirrors(v: Seq<Progress>, m: Map<Seq<char>, ProgressView>) -> bool {
    &&& forall|i: int|
        0 <= i < v.len() ==> m.contains_key(#[trigger] v[i].user.name@) && m[v[i].user.name@]
            == v[i]@
    &&& forall|k: Seq<char>|
        m.contains_key(k) ==> exists|i: int| 0 <= i < v.len() && #[trigger] v[i].user.name@ == k
    &&& forall|i: int, j: int| 0 <= i < j < v.len() ==> v[i].user.name@ != v[j].user.name@
}

/// `v` holds each tally of `m` once.
spec fn records_mirror(v: Seq<WinLose>, m: Map<Seq<char>, (i32, i32)>) -> bool {
    &&& forall|i: int|
        0 <= i < v.len() ==> m.contains_key(#[trigger] v[i].name@) && m[v[i].name@] == (
            v[i].win,
            v[i].lose,
        )
    &&& forall|k: Seq<char>|
        m.contains_key(k) ==> exists|i: int| 0 <= i < v.len() && #[trigger] v[i].name@ == k
    &&& forall|i: int, j: int| 0 <= i < j < v.len() ==> v[i].name@ != v[j].name@
    &&& forall|i: int, j: int| 0 <= i < j < v.len() ==> name_less(v[i].name@, v[j].name@)
}

/// Replacing an entry by one under the same name keeps `v` mirroring `m`.
proof fn lemma_records_set(v: Seq<WinLose>, m: Map<Seq<char>, (i32, i32)>, p: int, w: WinLose)
    requires
        records_mirror(v, m),
        0 <= p < v.len(),
        v[p].name@ == w.name@,
    ensures
        records_mirror(v.update(p, w), m.insert(w.name@, (w.win, w.lose))),
{
    let v2 = v.update(p, w);
    let m2 = m.insert(w.name@, (w.win, w.lose));
    assert forall|k: Seq<char>| m2.contains_key(k) implies exists|i: int|
        0 <= i < v2.len() && #[trigger] v2[i].name@ == k by {
        if k == w.name@ {
            assert(v2[p].name@ == k);
        } else {
            let i = choose|i: int| 0 <= i < v.len() && #[trigger] v[i].name@ == k;
            assert(v2[i].name@ == k);
        }
    }
}

/// Inserting an entry under a new name at its place in the order keeps `v`
/// mirroring `m`.
proof fn lemma_records_insert(v: Seq<WinLose>, m: Map<Seq<char>, (i32, i32)>, p: int, w: WinLose)
    requires
        records_mirror(v, m),
        0 <= p <= v.len(),
        forall|i: int| 0 <= i < p ==> name_less(#[trigger] v[i].name@, w.name@),
        forall|i: int| p <= i < v.len() ==> !name_less(#[trigger] v[i].name@, w.name@),
        forall|i: int| 0 <= i < v.len() ==> #[trigger] v[i].name@ != w.name@,
    ensures
        records_mirror(v.insert(p, w), m.insert(w.name@, (w.win, w.lose))),
{
    let v2 = v.insert(p, w);
    let m2 = m.insert(w.name@, (w.win, w.lose));
    assert forall|i: int| 0 <= i < v2.len() implies m2.contains_key(#[trigger] v2[i].name@) && m2[v2[i].name@]
        == (v2[i].win, v2[i].lose) by {
        if i > p {
            assert(v2[i] == v[i - 1]);
        } else if i < p {
            assert(v2[i] == v[i]);
        }
    }
    assert forall|k: Seq<char>| m2.contains_key(k) implies exists|i: int|
        0 <= i < v2.len() && #[trigger] v2[i].name@ == k by {
        if k == w.name@ {
            assert(v2[p].name@ == k);
        } else {
            let i = choose|i: int| 0 <= i < v.len() && #[trigger] v[i].name@ == k;
            if i < p {
                assert(v2[i].name@ == k);
            } else {
                assert(v2[i + 1].name@ == k);
            }
        }
    }
    assert forall|i: int, j: int| 0 <= i < j < v2.len() implies name_less(v2[i].name@, v2[j].name@)
        && v2[i].name@ != v2[j].name@ by {
        let a = if i < p { i } else if i == p { -1 } else { i - 1 };
        let b = if j < p { j } else if j == p { -1 } else { j - 1 };
        if i == p {
            assert(v2[i] == w && v2[j] == v[b]);
            lemma_name_less_total(v[b].name@, w.name@);
        } else if j == p {
            assert(v2[j] == w && v2[i] == v[a]);
        } else {
            assert(v2[i] == v[a] && v2[j] == v[b]);
        }
        lemma_name_less_irreflexive(v2[i].name@);
    }
}

fn find_progress(v: &Vec<Progress>, key: &String) -> (r: Option<usize>)
    ensures
        r matches Some(i) ==> i < v@.len() && v@[i as int].user.name@ == key@,
        r is None ==> forall|i: int| 0 <= i < v@.len() ==> v@[i].user.name@ != key@,
{
    let mut i: usize = 0;
    while i < v.len()
        invariant
            i <= v@.len(),
            forall|j: int| 0 <= j < i ==> v@[j].user.name@ != key@,
        decreases v@.len() - i,
    {
        if v[i].user.name == *key {
            return Some(i);
        }
        i = i + 1;
    }
    None
}

/// Where an entry named `key` goes among entries in name order: after
/// every name before it, and before every other.
fn insert_position(v: &Vec<WinLose>, key: &str) -> (p: usize)
    requires
        forall|i: int, j: int| 0 <= i < j < v@.len() ==> name_less(v@[i].name@, v@[j].name@),
    ensures
        p <= v@.len(),
        forall|i: int| 0 <= i < p ==> name_less(#[trigger] v@[i].name@, key@),
        forall|i: int| p <= i < v@.len() ==> !name_less(#[trigger] v@[i].name@, key@),
{
    let mut i: usize = 0;
    while i < v.len()
        invariant
            i <= v@.len(),
            forall|j: int| 0 <= j < i ==> name_less(#[trigger] v@[j].name@, key@),
            forall|a: int, b: int| 0 <= a < b < v@.len() ==> name_less(v@[a].name@, v@[b].name@),
        decreases v@.len() - i,
    {
        if !names_in_order(v[i].name.as_str(), key) {
            proof {
                assert forall|j: int| i <= j < v@.len() implies !name_less(#[trigger] v@[j].name@, key@) by {
                    if j > i && name_less(v@[j].name@, key@) {
                        lemma_name_less_trans(v@[i as int].name@, v@[j].name@, key@);
                    }
                }
            }
            return i;
        }
        i = i + 1;
    }
    i
}

fn find_record(v: &Vec<WinLose>, key: &String) -> (r: Option<usize>)
    ensures
        r matches Some(i) ==> i < v@.len() && v@[i as int].name@ == key@,
        r is None ==> forall|i: int| 0 <= i < v@.len() ==> v@[i].name@ != key@,
{
    let mut i: usize = 0;
    while i < v.len()
        invariant
            i <= v@.len(),
            forall|j: int| 0 <= j < i ==> v@[j].name@ != key@,
        decreases v@.len() - i,
    {
        if v[i].name == *key {
            return Some(i);
        }
        i = i + 1;
    }
    None
}

impl ScoresInMap {
    /// An empty store.
    pub fn new() -> (r: ScoresInMap)
        ensures
            r.well_formed(),
            r.store_view().progress == Map::<Seq<char>, ProgressView>::empty(),
            r.store_view().records == Map::<Seq<char>, (i32, i32)>::empty(),
    {
        ScoresInMap {
            score_map: Vec::new(),
            winlose_map: Vec::new(),
            progress: Ghost(Map::empty()),
            records: Ghost(Map::empty()),
        }
    }
}

impl ScoreOperator for ScoresInMap {
    closed spec fn store_view(&self) -> StoreView {
        StoreView { progress: self.progress@, records: self.records@ }
    }

    closed spec fn well_formed(&self) -> bool {
        progress_mirrors(self.score_map@, self.progress@) && records_mirror(
            self.winlose_map@,
            self.records@,
        )
    }

    fn get_progress(&mut self, player_name: &str) -> (r: Option<Progress>) {
        let key = String::from_str(player_name);
        match find_progress(&self.score_map, &key) {
            Some(i) => Some(self.score_map[i].duplicate()),
            None => {
                assert(!self.progress@.contains_key(player_name@));
                None
            },
        }
    }

    fn insert_progress(&mut self, progress: &Progress) -> (r: bool) {
        let ghost old_v = self.score_map@;
        let ghost old_m = self.progress@;
        let ghost key = progress.user.name@;
        assert(progress_mirrors(old_v, old_m));
        let found = find_progress(&self.score_map, &progress.user.name);
        match found {
            Some(i) => {
                self.score_map.set(i, progress.duplicate());
            },
            None => {
                self.score_map.push(progress.duplicate());
            },
        }
        self.progress = Ghost(self.progress@.insert(key, progress@));
        assert(progress_mirrors(self.score_map@, self.progress@)) by {
            assert forall|k: Seq<char>| self.progress@.contains_key(k) implies exists|i: int|
                0 <= i < self.score_map@.len() && #[trigger] self.score_map@[i].user.name@ == k by {
                if k != key {
                    assert(old_m.contains_key(k));
                    let i = choose|i: int| 0 <= i < old_v.len() && #[trigger] old_v[i].user.name@ == k;
                    assert(self.score_map@[i].user.name@ == k);
                } else {
                    match found {
                        Some(i) => assert(self.score_map@[i as int].user.name@ == k),
                        None => assert(self.score_map@[old_v.len() as int].user.name@ == k),
                    }
                }
            }
        }
        true
    }

    fn delete_progress(&mut self, player_name: &str) -> (r: bool) {
        let ghost old_v = self.score_map@;
        let key = String::from_str(player_name);
        match find_progress(&self.score_map, &key) {
            Some(i) => {
                self.score_map.remove(i);
                assert forall|j: int| 0 <= j < self.score_map@.len() implies #[trigger] self.score_map@[j].user.name@ != key@ by {
                    if j < i {
                        assert(self.score_map@[j] == old_v[j]);
                    } else {
                        assert(self.score_map@[j] == old_v[j + 1]);
                    }
                }
            },
            None => {},
        }
        self.progress = Ghost(self.progress@.remove(key@));
        assert(progress_mirrors(self.score_map@, self.progress@)) by {
            assert forall|k: Seq<char>| self.progress@.contains_key(k) implies exists|i: int|
                0 <= i < self.score_map@.len() && #[trigger] self.score_map@[i].user.name@ == k by {
                let i = choose|i: int| 0 <= i < old_v.len() && #[trigger] old_v[i].user.name@ == k;
                assert(old_v[i].user.name@ != key@);
                if self.score_map@.len() == old_v.len() {
                    assert(self.score_map@[i].user.name@ == k);
                } else {
                    let d = choose|d: int| 0 <= d < old_v.len() && old_v[d].user.name@ == key@;
                    if i < d {
                        assert(self.score_map@[i].user.name@ == k);
                    } else {
                        assert(self.score_map@[i - 1].user.name@ == k);
                    }
                }
            }
        }
        true
    }

    fn update_winloses(&mut self, player_name: &str, is_player_win: bool) -> (r: bool) {
        let ghost old_v = self.winlose_map@;
        let ghost old_m = self.records@;
        assert(records_mirror(old_v, old_m));
        let key = String::from_str(player_name);
        let ghost t = tally_of(self.store_view(), key@);
        let found = find_record(&self.winlose_map, &key);
        let existing = match found {
            Some(i) => Some(self.winlose_map[i].duplicate()),
            None => None,
        };
        proof {
            match found {
                Some(i) => {
                    assert(old_m.contains_key(old_v[i as int].name@));
                },
                None => {
                    if old_m.contains_key(key@) {
                        let j = choose|j: int| 0 <= j < old_v.len() && #[trigger] old_v[j].name@ == key@;
                        assert(old_v[j].name@ != key@);
                    }
                },
            }
        }
        let win_lose = next_winlose(existing, player_name, is_player_win);
        let ghost w = win_lose;
        assert(w.name@ == key@);
        match found {
            Some(i) => {
                self.winlose_map.set(i, win_lose);
                proof {
                    lemma_records_set(old_v, old_m, i as int, w);
                }
            },
            None => {
                let pos = insert_position(&self.winlose_map, player_name);
                self.winlose_map.insert(pos, win_lose);
                proof {
                    lemma_records_insert(old_v, old_m, pos as int, w);
                }
            },
        }
        self.records = Ghost(self.records@.insert(key@, (w.win, w.lose)));
        true
    }

    fn get_win_loses(&self) -> (r: Vec<WinLose>) {
        assert(records_mirror(self.winlose_map@, self.records@));
        let mut res: Vec<WinLose> = Vec::new();
        let mut i: usize = 0;
        while i < self.winlose_map.len()
            invariant
                i <= self.winlose_map@.len(),
                res@ == self.winlose_map@.subrange(0, i as int),
            decreases self.winlose_map@.len() - i,
        {
            res.push(self.winlose_map[i].duplicate());
            i = i + 1;
            assert(res@ =~= self.winlose_map@.subrange(0, i as int));
        }
        assert(res@ =~= self.winlose_map@);
        assert(self.store_view().records == self.records@);
        assert(lists_records(res@, self.store_view()));
        res
    }
}

} // verus!
