//! The cache of table states, one per path of the open document, and its
//! flattened form for the settings file.

use crate::archive_path::{
    clone_path,
    contains_path,
    flat_key,
    join_path,
    path_of_key,
    split_key,
    survives_flattening,
};
use crate::name_order::{
    lemma_path_precedes_irreflexive,
    lemma_path_precedes_total,
    lemma_path_precedes_transitive,
    path_precedes,
    place_of,
    Place,
};
use crate::records::{
    distinct_keys,
    has_key,
    lemma_distinct_keys_front,
    lemma_records_domain,
    lemma_records_insert_at,
    lemma_records_push,
    lemma_records_remove,
    lemma_records_update,
    lemma_records_value,
    records_to_map,
};
use crate::table_state::{empty_table_state, TableState, TableStateView};
use crate::text::{lemma_join_of_split, lemma_split_of_join};
use vstd::prelude::*;
use vstd::string::*;

verus! {

/// The table states of the paths that were opened or edited. A path without
/// an entry has the untouched state.
pub struct TableStates {
    entries: Vec<(Vec<String>, TableState)>,
}

impl View for TableStates {
    type V = Map<Seq<Seq<char>>, TableStateView>;

    /// The cache as a map from path to table state.
    closed spec fn view(&self) -> Map<Seq<Seq<char>>, TableStateView> {
        records_to_map(self.listing())
    }
}

/// The paths of the listing rise strictly in the order of paths.
pub open spec fn rises_by_path(listing: Seq<(Seq<Seq<char>>, TableStateView)>) -> bool {
    forall|i: int, j: int|
        0 <= i < j < listing.len() ==> path_precedes(
            (#[trigger] listing[i]).0,
            (#[trigger] listing[j]).0,
        )
}

/// The flat records that a listing of the cache is saved as: each path
/// replaced by its flattened key.
pub open spec fn saved_records(listing: Seq<(Seq<Seq<char>>, TableStateView)>) -> Seq<
    (Seq<char>, TableStateView),
> {
    listing.map_values(|e: (Seq<Seq<char>>, TableStateView)| (flat_key(e.0), e.1))
}

/// The pairs that flat records are loaded as: each key replaced by the path
/// that it stands for.
pub open spec fn loaded_records(records: Seq<(Seq<char>, TableStateView)>) -> Seq<
    (Seq<Seq<char>>, TableStateView),
> {
    records.map_values(|r: (Seq<char>, TableStateView)| (path_of_key(r.0), r.1))
}

/// The paths of a listing, in its order.
pub open spec fn listed_paths(listing: Seq<(Seq<Seq<char>>, TableStateView)>) -> Seq<
    Seq<Seq<char>>,
> {
    listing.map_values(|e: (Seq<Seq<char>>, TableStateView)| e.0)
}

/// The cache that a flat record, a map from flattened key to table state,
/// stands for.
pub open spec fn unflatten(flat: Map<Seq<char>, TableStateView>) -> Map<
    Seq<Seq<char>>,
    TableStateView,
> {
    Map::new(
        |p: Seq<Seq<char>>| flat.contains_key(flat_key(p)) && path_of_key(flat_key(p)) == p,
        |p: Seq<Seq<char>>| flat[flat_key(p)],
    )
}

/// A listing whose paths rise strictly holds no path twice.
proof fn lemma_rising_is_distinct(listing: Seq<(Seq<Seq<char>>, TableStateView)>)
    requires
        rises_by_path(listing),
    ensures
        distinct_keys(listing),
{
    assert forall|i: int, j: int| 0 <= i < j < listing.len() implies (#[trigger] listing[i]).0 != (
    #[trigger] listing[j]).0 by {
        lemma_path_precedes_irreflexive(listing[i].0);
    }
}

impl TableStates {
    /// The entries of the cache, each path once, by rising path.
    pub closed spec fn listing(&self) -> Seq<(Seq<Seq<char>>, TableStateView)> {
        self.entries.deep_view()
    }

    /// The paths of the entries rise strictly, so no path has two entries.
    pub closed spec fn wf(&self) -> bool {
        rises_by_path(self.listing())
    }

    /// The listing holds each path of the cache once, with its state, by
    /// rising path.
    pub proof fn lemma_listing(&self)
        requires
            self.wf(),
        ensures
            rises_by_path(self.listing()),
            distinct_keys(self.listing()),
            records_to_map(self.listing()) == self@,
    {
        lemma_rising_is_distinct(self.listing());
    }

    /// A cache without entries.
    pub fn new() -> (states: Self)
        ensures
            states.wf(),
            states@ == Map::<Seq<Seq<char>>, TableStateView>::empty(),
    {
        let states = Self { entries: Vec::new() };
        assert(states.listing() =~= Seq::empty());
        states
    }

    /// The number of paths with an entry.
    pub fn len(&self) -> (n: usize)
        requires
            self.wf(),
        ensures
            n == self.listing().len(),
            n == self@.dom().len(),
    {
        proof {
            lemma_rising_is_distinct(self.listing());
            lemma_listing_len(self.listing());
        }
        self.entries.len()
    }

    /// Whether no path has an entry.
    pub fn is_empty(&self) -> (empty: bool)
        requires
            self.wf(),
        ensures
            empty == (self@ == Map::<Seq<Seq<char>>, TableStateView>::empty()),
    {
        proof {
            if self.entries.len() == 0 {
                assert(self.listing() =~= Seq::empty());
            } else {
                lemma_rising_is_distinct(self.listing());
                lemma_records_value(self.listing(), 0);
            }
        }
        self.entries.len() == 0
    }

    /// The place of `path` in the listing: the index of its entry, or the
    /// index at which its entry would stand.
    fn position(&self, path: &Vec<String>) -> (found: (usize, bool))
        requires
            self.wf(),
        ensures
            found.0 <= self.entries.len(),
            forall|j: int|
                0 <= j < found.0 ==> path_precedes(
                    (#[trigger] self.listing()[j]).0,
                    path.deep_view(),
                ),
            found.1 ==> found.0 < self.entries.len() && self.listing()[found.0 as int].0
                == path.deep_view(),
            !found.1 ==> !has_key(self.listing(), path.deep_view()) && forall|j: int|
                found.0 <= j < self.entries.len() ==> path_precedes(
                    path.deep_view(),
                    (#[trigger] self.listing()[j]).0,
                ),
    {
        let ghost l = self.listing();
        let ghost p = path.deep_view();
        let mut at: usize = 0;
        while at < self.entries.len()
            invariant
                at <= self.entries.len(),
                self.wf(),
                l == self.listing(),
                p == path.deep_view(),
                forall|j: int| 0 <= j < at ==> path_precedes((#[trigger] l[j]).0, p),
            decreases self.entries.len() - at,
        {
            assert(l[at as int].0 == self.entries[at as int].0.deep_view());
            match place_of(&self.entries[at].0, path) {
                Place::Before => {
                    at += 1;
                },
                Place::Same => {
                    return (at, true);
                },
                Place::After => {
                    proof {
                        assert forall|j: int| at <= j < l.len() implies path_precedes(
                            p,
                            (#[trigger] l[j]).0,
                        ) by {
                            if j > at {
                                lemma_path_precedes_transitive(p, l[at as int].0, l[j].0);
                            }
                        }
                        assert forall|j: int| 0 <= j < l.len() implies (#[trigger] l[j]).0 != p by {
                            lemma_path_precedes_irreflexive(p);
                        }
                    }
                    return (at, false);
                },
            }
        }
        proof {
            assert forall|j: int| 0 <= j < l.len() implies (#[trigger] l[j]).0 != p by {
                lemma_path_precedes_irreflexive(p);
            }
        }
        (at, false)
    }

    /// Whether `path` has an entry.
    pub fn contains(&self, path: &Vec<String>) -> (found: bool)
        requires
            self.wf(),
        ensures
            found == self@.contains_key(path.deep_view()),
    {
        proof {
            lemma_records_domain(self.listing(), path.deep_view());
        }
        self.position(path).1
    }

    /// The table state of `path`: that of its entry, or the untouched state
    /// where it has none.
    pub fn get(&self, path: &Vec<String>) -> (state: TableState)
        requires
            self.wf(),
        ensures
            state.deep_view() == if self@.contains_key(path.deep_view()) {
                self@[path.deep_view()]
            } else {
                empty_table_state()
            },
    {
        proof {
            lemma_rising_is_distinct(self.listing());
            lemma_records_domain(self.listing(), path.deep_view());
        }
        let (at, found) = self.position(path);
        if found {
            proof {
                lemma_records_value(self.listing(), at as int);
            }
            self.entries[at].1.clone()
        } else {
            TableState::new_empty()
        }
    }

    /// Sets the table state of `path`, replacing the whole of an earlier one.
    pub fn put(&mut self, path: Vec<String>, state: TableState)
        requires
            old(self).wf(),
        ensures
            final(self).wf(),
            final(self)@ == old(self)@.insert(path.deep_view(), state.deep_view()),
    {
        let ghost before = self.listing();
        let ghost p = path.deep_view();
        proof {
            lemma_rising_is_distinct(before);
        }
        let (at, found) = self.position(&path);
        if found {
            self.entries.set(at, (path, state));
            proof {
                lemma_records_update(before, at as int, state.deep_view());
                let now = self.listing();
                assert(now =~= before.update(at as int, (before[at as int].0, state.deep_view())));
                assert forall|i: int, j: int| 0 <= i < j < now.len() implies path_precedes(
                    (#[trigger] now[i]).0,
                    (#[trigger] now[j]).0,
                ) by {
                    assert(now[i].0 == before[i].0 && now[j].0 == before[j].0);
                }
            }
        } else {
            proof {
                lemma_records_insert_at(before, at as int, p, state.deep_view());
            }
            self.entries.insert(at, (path, state));
            proof {
                let now = self.listing();
                assert(now =~= before.insert(at as int, (p, state.deep_view())));
                assert forall|i: int, j: int| 0 <= i < j < now.len() implies path_precedes(
                    (#[trigger] now[i]).0,
                    (#[trigger] now[j]).0,
                ) by {
                    if i != at {
                        assert(now[i] == before[if i < at {
                            i
                        } else {
                            i - 1
                        }]);
                    }
                    if j != at {
                        assert(now[j] == before[if j < at {
                            j
                        } else {
                            j - 1
                        }]);
                    }
                }
            }
        }
    }

    /// Takes the entry of `path` out of the cache and returns its state, if
    /// it had one.
    pub fn remove(&mut self, path: &Vec<String>) -> (removed: Option<TableState>)
        requires
            old(self).wf(),
        ensures
            final(self).wf(),
            final(self)@ == old(self)@.remove(path.deep_view()),
            match removed {
                Some(state) => old(self)@.contains_key(path.deep_view()) && state.deep_view()
                    == old(self)@[path.deep_view()],
                None => !old(self)@.contains_key(path.deep_view()),
            },
    {
        let ghost before = self.listing();
        proof {
            lemma_rising_is_distinct(before);
            lemma_records_domain(before, path.deep_view());
        }
        let (at, found) = self.position(path);
        if found {
            proof {
                lemma_records_value(before, at as int);
            }
            let entry = self.take_out(at);
            Some(entry.1)
        } else {
            assert(self@ =~= old(self)@.remove(path.deep_view()));
            None
        }
    }

    /// Takes the entry at `at` out of the listing.
    fn take_out(&mut self, at: usize) -> (entry: (Vec<String>, TableState))
        requires
            old(self).wf(),
            at < old(self).entries.len(),
        ensures
            final(self).wf(),
            final(self).listing() == old(self).listing().remove(at as int),
            final(self)@ == old(self)@.remove(old(self).listing()[at as int].0),
            entry.deep_view() == old(self).listing()[at as int],
    {
        let ghost before = self.listing();
        proof {
            lemma_rising_is_distinct(before);
            lemma_records_remove(before, at as int);
        }
        let entry = self.entries.remove(at);
        proof {
            let now = self.listing();
            assert(now =~= before.remove(at as int));
            assert forall|i: int, j: int| 0 <= i < j < now.len() implies path_precedes(
                (#[trigger] now[i]).0,
                (#[trigger] now[j]).0,
            ) by {
                assert(now[i] == before[if i < at {
                    i
                } else {
                    i + 1
                }]);
                assert(now[j] == before[if j < at {
                    j
                } else {
                    j + 1
                }]);
            }
        }
        entry
    }

    /// Empties the cache.
    pub fn clear(&mut self)
        ensures
            final(self).wf(),
            final(self)@ == Map::<Seq<Seq<char>>, TableStateView>::empty(),
    {
        self.entries.clear();
        assert(self.listing() =~= Seq::empty());
    }

    /// Drops every entry whose path is not in `open_paths`, and leaves the
    /// others as they are.
    pub fn clear_except(&mut self, open_paths: &Vec<Vec<String>>)
        requires
            old(self).wf(),
        ensures
            final(self).wf(),
            final(self)@ == old(self)@.restrict(open_paths.deep_view().to_set()),
    {
        let ghost keep = open_paths.deep_view().to_set();
        let mut i: usize = 0;
        while i < self.entries.len()
            invariant
                i <= self.entries.len(),
                self.wf(),
                keep == open_paths.deep_view().to_set(),
                forall|j: int| 0 <= j < i ==> keep.contains((#[trigger] self.listing()[j]).0),
                forall|k: Seq<Seq<char>>| #[trigger]
                    self@.contains_key(k) ==> old(self)@.contains_key(k) && self@[k] == old(
                        self,
                    )@[k],
                forall|k: Seq<Seq<char>>|
                    old(self)@.contains_key(k) && keep.contains(k) ==> #[trigger] self@.contains_key(
                        k,
                    ),
            decreases self.entries.len() - i,
        {
            if contains_path(open_paths, &self.entries[i].0) {
                i += 1;
            } else {
                let ghost before = self.listing();
                let ghost before_map = self@;
                let _ = self.take_out(i);
                proof {
                    assert(self@ == before_map.remove(before[i as int].0));
                    assert forall|j: int| 0 <= j < i implies keep.contains(
                        (#[trigger] self.listing()[j]).0,
                    ) by {
                        assert(self.listing()[j] == before[j]);
                    }
                }
            }
        }
        proof {
            let after = self@;
            let expected = old(self)@.restrict(keep);
            assert forall|k: Seq<Seq<char>>| after.contains_key(k) implies keep.contains(k) by {
                lemma_records_domain(self.listing(), k);
                let j = choose|j: int|
                    0 <= j < self.listing().len() && (#[trigger] self.listing()[j]).0 == k;
                assert(keep.contains(self.listing()[j].0));
            }
            assert(after =~= expected);
        }
    }

    /// The paths that have an entry, by rising path.
    pub fn paths(&self) -> (paths: Vec<Vec<String>>)
        ensures
            paths.deep_view() == listed_paths(self.listing()),
    {
        let mut paths: Vec<Vec<String>> = Vec::new();
        let mut i: usize = 0;
        while i < self.entries.len()
            invariant
                i <= self.entries.len(),
                paths.len() == i,
                forall|j: int| 0 <= j < i ==> (#[trigger] paths.deep_view()[j]) == self.listing()[j].0,
            decreases self.entries.len() - i,
        {
            let copy = clone_path(&self.entries[i].0);
            let ghost before = paths.deep_view();
            paths.push(copy);
            assert(paths.deep_view() =~= before.push(copy.deep_view()));
            i += 1;
        }
        assert(paths.deep_view() =~= listed_paths(self.listing()));
        paths
    }
}

/// A list without repeated keys is as long as its map has keys.
proof fn lemma_listing_len<K, V>(records: Seq<(K, V)>)
    requires
        distinct_keys(records),
    ensures
        records_to_map(records).dom().finite(),
        records_to_map(records).dom().len() == records.len(),
    decreases records.len(),
{
    if records.len() > 0 {
        let front = records.drop_last();
        lemma_distinct_keys_front(records);
        lemma_listing_len(front);
        lemma_records_domain(front, records.last().0);
        if has_key(front, records.last().0) {
            let i = choose|i: int| 0 <= i < front.len() && (#[trigger] front[i]).0 == records.last().0;
            assert(front[i] == records[i]);
            assert(records[i].0 != records[records.len() - 1].0);
        }
    }
}

impl TableState {
    /// An empty cache of table states.
    pub fn new() -> (states: TableStates)
        ensures
            states.wf(),
            states@ == Map::<Seq<Seq<char>>, TableStateView>::empty(),
    {
        TableStates::new()
    }

    /// The cache that the flat records of a settings file stand for: each
    /// key split into the path it stands for, a later record replacing an
    /// earlier one of the same path.
    pub fn load(records: &Vec<(String, TableState)>) -> (states: TableStates)
        ensures
            states.wf(),
            states@ == records_to_map(loaded_records(records.deep_view())),
    {
        let mut states = TableStates::new();
        let mut i: usize = 0;
        proof {
            assert(loaded_records(records.deep_view().take(0)) =~= Seq::empty());
        }
        while i < records.len()
            invariant
                i <= records.len(),
                states.wf(),
                states@ == records_to_map(loaded_records(records.deep_view().take(i as int))),
            decreases records.len() - i,
        {
            let path = split_key(records[i].0.as_str());
            let state = records[i].1.clone();
            proof {
                let before = loaded_records(records.deep_view().take(i as int));
                let after = loaded_records(records.deep_view().take(i + 1));
                assert(after =~= before.push((path.deep_view(), state.deep_view())));
                lemma_records_push(before, path.deep_view(), state.deep_view());
            }
            states.put(path, state);
            i += 1;
        }
        assert(records.deep_view().take(records.len() as int) == records.deep_view());
        states
    }

    /// The flat records that the cache is saved as: one for each entry, by
    /// rising path, the path flattened into the key.
    pub fn save(states: &TableStates) -> (records: Vec<(String, TableState)>)
        ensures
            records.deep_view() == saved_records(states.listing()),
    {
        let mut records: Vec<(String, TableState)> = Vec::new();
        let mut i: usize = 0;
        while i < states.entries.len()
            invariant
                i <= states.entries.len(),
                records.len() == i,
                forall|j: int|
                    0 <= j < i ==> (#[trigger] records.deep_view()[j]) == (
                        flat_key(states.listing()[j].0),
                        states.listing()[j].1,
                    ),
            decreases states.entries.len() - i,
        {
            let key = join_path(&states.entries[i].0);
            let state = states.entries[i].1.clone();
            let ghost before = records.deep_view();
            records.push((key, state));
            assert(records.deep_view() =~= before.push((key@, state.deep_view())));
            i += 1;
        }
        assert(records.deep_view() =~= saved_records(states.listing()));
        records
    }
}

/// Two listings that rise by path and stand for the same map are the same
/// listing: what a cache holds fixes the order in which it is saved.
pub proof fn lemma_listing_is_fixed_by_the_map(
    a: Seq<(Seq<Seq<char>>, TableStateView)>,
    b: Seq<(Seq<Seq<char>>, TableStateView)>,
)
    requires
        rises_by_path(a),
        rises_by_path(b),
        records_to_map(a) == records_to_map(b),
    ensures
        a == b,
    decreases a.len(),
{
    lemma_rising_is_distinct(a);
    lemma_rising_is_distinct(b);
    if a.len() == 0 {
        if b.len() > 0 {
            lemma_records_value(b, 0);
        }
        assert(a =~= b);
    } else if b.len() == 0 {
        lemma_records_value(a, 0);
    } else {
        let x = a.last();
        let y = b.last();
        lemma_records_value(a, a.len() - 1);
        lemma_records_value(b, b.len() - 1);
        lemma_records_domain(a, y.0);
        lemma_records_domain(b, x.0);
        let i = choose|i: int| 0 <= i < a.len() && (#[trigger] a[i]).0 == y.0;
        let j = choose|j: int| 0 <= j < b.len() && (#[trigger] b[j]).0 == x.0;
        if x.0 != y.0 {
            assert(path_precedes(a[i].0, x.0));
            assert(path_precedes(b[j].0, y.0));
            lemma_path_precedes_total(x.0, y.0);
        }
        assert(x == y);
        let fa = a.drop_last();
        let fb = b.drop_last();
        lemma_distinct_keys_front(a);
        lemma_distinct_keys_front(b);
        assert forall|m: int, n: int| 0 <= m < n < fa.len() implies path_precedes(
            (#[trigger] fa[m]).0,
            (#[trigger] fa[n]).0,
        ) by {
            assert(fa[m] == a[m] && fa[n] == a[n]);
        }
        assert forall|m: int, n: int| 0 <= m < n < fb.len() implies path_precedes(
            (#[trigger] fb[m]).0,
            (#[trigger] fb[n]).0,
        ) by {
            assert(fb[m] == b[m] && fb[n] == b[n]);
        }
        lemma_records_domain(fa, x.0);
        lemma_records_domain(fb, x.0);
        if has_key(fa, x.0) {
            let m = choose|m: int| 0 <= m < fa.len() && (#[trigger] fa[m]).0 == x.0;
            assert(fa[m] == a[m]);
            assert(a[m].0 != a[a.len() - 1].0);
        }
        if has_key(fb, x.0) {
            let m = choose|m: int| 0 <= m < fb.len() && (#[trigger] fb[m]).0 == x.0;
            assert(fb[m] == b[m]);
            assert(b[m].0 != b[b.len() - 1].0);
        }
        assert(records_to_map(fa) =~= records_to_map(a).remove(x.0));
        assert(records_to_map(fb) =~= records_to_map(b).remove(x.0));
        lemma_listing_is_fixed_by_the_map(fa, fb);
        assert(a =~= fa.push(x));
        assert(b =~= fb.push(y));
    }
}

/// Loading flat records gives the cache that their map stands for: the order
/// of the records matters only where two have the same key.
pub proof fn lemma_load_reads_the_flat_map(records: Seq<(Seq<char>, TableStateView)>)
    ensures
        records_to_map(loaded_records(records)) == unflatten(records_to_map(records)),
    decreases records.len(),
{
    let left = records_to_map(loaded_records(records));
    let right = unflatten(records_to_map(records));
    if records.len() == 0 {
        assert(loaded_records(records) =~= Seq::empty());
        assert(left =~= right);
    } else {
        let front = records.drop_last();
        let k = records.last().0;
        let v = records.last().1;
        lemma_load_reads_the_flat_map(front);
        assert(loaded_records(records).drop_last() =~= loaded_records(front));
        assert(loaded_records(records).last() == (path_of_key(k), v));
        lemma_join_of_split(k, crate::archive_path::KEY_DELIMITER);
        assert(flat_key(path_of_key(k)) == k);
        assert(left == records_to_map(loaded_records(front)).insert(path_of_key(k), v));
        assert(left =~= right);
    }
}

/// Saving the cache and loading what was saved gives the cache back, where
/// every path has at least one segment and no segment holds the delimiter.
/// It holds of every list of records that stands for the same flat map as
/// the saved one, whatever its order.
pub proof fn lemma_load_of_save(states: TableStates, records: Seq<(Seq<char>, TableStateView)>)
    requires
        states.wf(),
        forall|p: Seq<Seq<char>>| #[trigger] states@.contains_key(p) ==> survives_flattening(p),
        records_to_map(records) == records_to_map(saved_records(states.listing())),
    ensures
        records_to_map(loaded_records(records)) == states@,
{
    let listing = states.listing();
    let saved = saved_records(listing);
    let d = crate::archive_path::KEY_DELIMITER;
    lemma_rising_is_distinct(listing);
    lemma_load_reads_the_flat_map(records);
    assert forall|i: int| 0 <= i < listing.len() implies path_of_key(
        flat_key((#[trigger] listing[i]).0),
    ) == listing[i].0 by {
        lemma_records_value(listing, i);
        assert(states@.contains_key(listing[i].0));
        lemma_split_of_join(listing[i].0, d);
    }
    assert forall|a: int, b: int| 0 <= a < b < saved.len() implies (#[trigger] saved[a]).0 != (
    #[trigger] saved[b]).0 by {
        assert(listing[a].0 != listing[b].0);
        assert(path_of_key(flat_key(listing[a].0)) == listing[a].0);
        assert(path_of_key(flat_key(listing[b].0)) == listing[b].0);
    }
    let flat = records_to_map(saved);
    let left = unflatten(flat);
    let right = states@;
    assert forall|p: Seq<Seq<char>>| left.contains_key(p) <==> right.contains_key(p) by {
        lemma_records_domain(saved, flat_key(p));
        lemma_records_domain(listing, p);
        if left.contains_key(p) {
            let i = choose|i: int| 0 <= i < saved.len() && (#[trigger] saved[i]).0 == flat_key(p);
            assert(flat_key(listing[i].0) == flat_key(p));
            assert(path_of_key(flat_key(listing[i].0)) == listing[i].0);
            assert(listing[i].0 == p);
        }
        if right.contains_key(p) {
            let i = choose|i: int| 0 <= i < listing.len() && (#[trigger] listing[i]).0 == p;
            assert(saved[i].0 == flat_key(p));
            assert(path_of_key(flat_key(listing[i].0)) == listing[i].0);
        }
    }
    assert forall|p: Seq<Seq<char>>| left.contains_key(p) implies left[p] == right[p] by {
        lemma_records_domain(listing, p);
        let i = choose|i: int| 0 <= i < listing.len() && (#[trigger] listing[i]).0 == p;
        lemma_records_value(listing, i);
        assert(saved[i] == (flat_key(p), listing[i].1));
        lemma_records_value(saved, i);
    }
    assert(left =~= right);
}

} // verus!
