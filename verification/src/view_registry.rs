//! The registry of open editor views: which slot of the view area shows
//! which path of the document. No path is ever shown in two slots.

use crate::archive_path::{clone_path, same_path};
use crate::records::{
    distinct_keys,
    has_key,
    lemma_records_domain,
    lemma_records_insert_at,
    lemma_records_remove,
    lemma_records_update,
    lemma_records_value,
    records_to_map,
};
use vstd::prelude::*;
use vstd::string::*;

verus! {

/// Some slot other than `slot` shows `path`.
pub open spec fn open_elsewhere(
    views: Map<i32, Seq<Seq<char>>>,
    path: Seq<Seq<char>>,
    slot: i32,
) -> bool {
    exists|other: i32| other != slot && #[trigger] views.contains_key(other) && views[other] == path
}

/// No two slots show the same path.
pub open spec fn one_view_per_path(views: Map<i32, Seq<Seq<char>>>) -> bool {
    forall|a: i32, b: i32|
        #![trigger views.contains_key(a), views.contains_key(b)]
        views.contains_key(a) && views.contains_key(b) && views[a] == views[b] ==> a == b
}

/// The registry after a request to show `path` in `slot`: unchanged where
/// another slot shows the path, else with `slot` showing `path` in place of
/// whatever it showed before.
pub open spec fn after_open_view(
    views: Map<i32, Seq<Seq<char>>>,
    path: Seq<Seq<char>>,
    slot: i32,
) -> Map<i32, Seq<Seq<char>>> {
    if open_elsewhere(views, path, slot) {
        views
    } else {
        views.insert(slot, path)
    }
}

/// A call on the registry, as a value.
pub enum RegistryCall {
    OpenView { path: Seq<Seq<char>>, slot: i32 },
    CloseView { slot: i32 },
    CloseAll,
}

/// The registry after one call.
pub open spec fn after_call(views: Map<i32, Seq<Seq<char>>>, call: RegistryCall) -> Map<
    i32,
    Seq<Seq<char>>,
> {
    match call {
        RegistryCall::OpenView { path, slot } => after_open_view(views, path, slot),
        RegistryCall::CloseView { slot } => views.remove(slot),
        RegistryCall::CloseAll => Map::empty(),
    }
}

/// The registry after a sequence of calls on a new registry.
pub open spec fn after_calls(calls: Seq<RegistryCall>) -> Map<i32, Seq<Seq<char>>>
    decreases calls.len(),
{
    if calls.len() == 0 {
        Map::empty()
    } else {
        after_call(after_calls(calls.drop_last()), calls.last())
    }
}

/// One call keeps the paths of the slots distinct.
pub proof fn lemma_call_keeps_one_view_per_path(
    views: Map<i32, Seq<Seq<char>>>,
    call: RegistryCall,
)
    requires
        one_view_per_path(views),
    ensures
        one_view_per_path(after_call(views, call)),
{
    let after = after_call(views, call);
    match call {
        RegistryCall::OpenView { path, slot } => {
            if !open_elsewhere(views, path, slot) {
                assert forall|a: i32, b: i32|
                    after.contains_key(a) && after.contains_key(b) && after[a]
                        == after[b] implies a == b by {
                    if a != slot && b == slot {
                        assert(views.contains_key(a));
                    }
                    if b != slot && a == slot {
                        assert(views.contains_key(b));
                    }
                    if a != slot && b != slot {
                        assert(views.contains_key(a) && views.contains_key(b));
                    }
                }
            }
        },
        RegistryCall::CloseView { slot } => {
            assert forall|a: i32, b: i32|
                after.contains_key(a) && after.contains_key(b) && after[a] == after[b] implies a
                == b by {
                assert(views.contains_key(a) && views.contains_key(b));
            }
        },
        RegistryCall::CloseAll => {},
    }
}

/// Whatever views are opened and closed, and in whatever order, at no point
/// do two slots show the same path.
pub proof fn lemma_never_two_views_of_one_path(calls: Seq<RegistryCall>, n: int)
    requires
        0 <= n <= calls.len(),
    ensures
        one_view_per_path(after_calls(calls.take(n))),
    decreases n,
{
    let done = calls.take(n);
    if n > 0 {
        lemma_never_two_views_of_one_path(calls, n - 1);
        assert(done.drop_last() == calls.take(n - 1));
        lemma_call_keeps_one_view_per_path(after_calls(calls.take(n - 1)), done.last());
    }
}

/// The slots of `slots` rise strictly, and they are the slots of `views`.
pub open spec fn lists_slots_of(slots: Seq<i32>, views: Map<i32, Seq<Seq<char>>>) -> bool {
    &&& forall|i: int, j: int| 0 <= i < j < slots.len() ==> slots[i] < slots[j]
    &&& forall|slot: i32| slots.contains(slot) <==> views.contains_key(slot)
}

/// The paths of a listing of views, in its order.
pub open spec fn paths_of(listing: Seq<(i32, Seq<Seq<char>>)>) -> Seq<Seq<Seq<char>>> {
    listing.map_values(|view: (i32, Seq<Seq<char>>)| view.1)
}

/// The request to show a path was refused: `slot` shows it already.
#[derive(Debug, PartialEq, Eq)]
pub struct AlreadyOpenElsewhere {
    pub slot: i32,
}

/// The open views, by slot.
pub struct ViewRegistry {
    entries: Vec<(i32, Vec<String>)>,
}

impl View for ViewRegistry {
    type V = Map<i32, Seq<Seq<char>>>;

    /// The registry as a map from slot to the path shown there.
    closed spec fn view(&self) -> Map<i32, Seq<Seq<char>>> {
        records_to_map(self.listing())
    }
}

impl ViewRegistry {
    /// The open views by rising slot.
    pub closed spec fn listing(&self) -> Seq<(i32, Seq<Seq<char>>)> {
        self.entries.deep_view()
    }

    /// The slots rise strictly and no path occurs twice.
    pub closed spec fn wf(&self) -> bool {
        &&& forall|i: int, j: int|
            0 <= i < j < self.listing().len() ==> (#[trigger] self.listing()[i]).0 < (
            #[trigger] self.listing()[j]).0
        &&& forall|i: int, j: int|
            0 <= i < j < self.listing().len() ==> (#[trigger] self.listing()[i]).1 != (
            #[trigger] self.listing()[j]).1
    }

    proof fn lemma_distinct(&self)
        requires
            self.wf(),
        ensures
            distinct_keys(self.listing()),
    {
    }

    /// The listing holds each open view once, by rising slot.
    pub proof fn lemma_listing(&self)
        requires
            self.wf(),
        ensures
            records_to_map(self.listing()) == self@,
            forall|i: int, j: int|
                0 <= i < j < self.listing().len() ==> (#[trigger] self.listing()[i]).0 < (
                #[trigger] self.listing()[j]).0,
    {
    }

    /// In a registry no two slots show the same path.
    pub proof fn lemma_one_view_per_path(&self)
        requires
            self.wf(),
        ensures
            one_view_per_path(self@),
    {
        let l = self.listing();
        assert forall|a: i32, b: i32|
            self@.contains_key(a) && self@.contains_key(b) && self@[a] == self@[b] implies a
            == b by {
            lemma_records_domain(l, a);
            lemma_records_domain(l, b);
            let i = choose|i: int| 0 <= i < l.len() && (#[trigger] l[i]).0 == a;
            let j = choose|j: int| 0 <= j < l.len() && (#[trigger] l[j]).0 == b;
            lemma_records_value(l, i);
            lemma_records_value(l, j);
            if i < j {
                assert(l[i].1 != l[j].1);
            } else if j < i {
                assert(l[j].1 != l[i].1);
            }
        }
    }

    /// A registry without views.
    pub fn new() -> (registry: Self)
        ensures
            registry.wf(),
            registry@ == Map::<i32, Seq<Seq<char>>>::empty(),
    {
        let registry = Self { entries: Vec::new() };
        assert(registry.listing() =~= Seq::empty());
        registry
    }

    /// Whether no view is open.
    pub fn is_empty(&self) -> (empty: bool)
        requires
            self.wf(),
        ensures
            empty == (self@ == Map::<i32, Seq<Seq<char>>>::empty()),
    {
        proof {
            if self.entries.len() == 0 {
                assert(self.listing() =~= Seq::empty());
            } else {
                lemma_records_value(self.listing(), 0);
            }
        }
        self.entries.len() == 0
    }

    /// The first index whose slot is not below `slot`.
    fn lower_bound(&self, slot: i32) -> (at: usize)
        requires
            self.wf(),
        ensures
            at <= self.entries.len(),
            forall|j: int| 0 <= j < at ==> (#[trigger] self.listing()[j]).0 < slot,
            forall|j: int| at <= j < self.entries.len() ==> (#[trigger] self.listing()[j]).0 >= slot,
    {
        let mut at: usize = 0;
        while at < self.entries.len() && self.entries[at].0 < slot
            invariant
                at <= self.entries.len(),
                self.wf(),
                forall|j: int| 0 <= j < at ==> (#[trigger] self.listing()[j]).0 < slot,
            decreases self.entries.len() - at,
        {
            at += 1;
        }
        proof {
            if at < self.entries.len() {
                assert(self.listing()[at as int].0 >= slot);
                assert forall|j: int| at <= j < self.entries.len() implies (
                #[trigger] self.listing()[j]).0 >= slot by {
                    if j > at {
                        assert(self.listing()[at as int].0 < self.listing()[j].0);
                    }
                }
            }
        }
        at
    }

    /// The index of the view that shows `path`.
    fn holder_of(&self, path: &Vec<String>) -> (at: Option<usize>)
        ensures
            match at {
                Some(i) => i < self.entries.len() && self.listing()[i as int].1
                    == path.deep_view(),
                None => forall|j: int|
                    0 <= j < self.entries.len() ==> (#[trigger] self.listing()[j]).1
                        != path.deep_view(),
            },
    {
        let mut i: usize = 0;
        while i < self.entries.len()
            invariant
                i <= self.entries.len(),
                forall|j: int| 0 <= j < i ==> (#[trigger] self.listing()[j]).1 != path.deep_view(),
            decreases self.entries.len() - i,
        {
            if same_path(&self.entries[i].1, path) {
                return Some(i);
            }
            i += 1;
        }
        None
    }

    /// The path shown in `slot`, if a view is open there.
    pub fn path_in(&self, slot: i32) -> (path: Option<Vec<String>>)
        requires
            self.wf(),
        ensures
            path.deep_view() == if self@.contains_key(slot) {
                Some(self@[slot])
            } else {
                None
            },
    {
        let at = self.lower_bound(slot);
        proof {
            self.lemma_distinct();
            lemma_records_domain(self.listing(), slot);
        }
        if at < self.entries.len() && self.entries[at].0 == slot {
            proof {
                lemma_records_value(self.listing(), at as int);
            }
            Some(clone_path(&self.entries[at].1))
        } else {
            None
        }
    }

    /// The slots that show `path`, rising. There is at most one.
    pub fn find_slots_by_path(&self, path: &Vec<String>) -> (slots: Vec<i32>)
        requires
            self.wf(),
        ensures
            slots.len() <= 1,
            forall|slot: i32|
                slots@.contains(slot) <==> self@.contains_key(slot) && self@[slot]
                    == path.deep_view(),
    {
        let mut slots: Vec<i32> = Vec::new();
        let ghost l = self.listing();
        proof {
            self.lemma_distinct();
        }
        match self.holder_of(path) {
            Some(i) => {
                slots.push(self.entries[i].0);
                proof {
                    assert(slots@ =~= seq![l[i as int].0]);
                    lemma_records_value(l, i as int);
                    assert forall|slot: i32|
                        slots@.contains(slot) <==> self@.contains_key(slot) && self@[slot]
                            == path.deep_view() by {
                        if self@.contains_key(slot) && self@[slot] == path.deep_view() {
                            lemma_records_domain(l, slot);
                            let j = choose|j: int| 0 <= j < l.len() && (#[trigger] l[j]).0 == slot;
                            lemma_records_value(l, j);
                            if j < i {
                                assert(l[j].1 != l[i as int].1);
                            } else if i < j {
                                assert(l[i as int].1 != l[j].1);
                            }
                            assert(slots@[0] == slot);
                        }
                    }
                }
            },
            None => {
                proof {
                    assert forall|slot: i32|
                        slots@.contains(slot) <==> self@.contains_key(slot) && self@[slot]
                            == path.deep_view() by {
                        if self@.contains_key(slot) {
                            lemma_records_domain(l, slot);
                            let j = choose|j: int| 0 <= j < l.len() && (#[trigger] l[j]).0 == slot;
                            lemma_records_value(l, j);
                        }
                    }
                }
            },
        }
        slots
    }

    /// Whether a slot other than `slot` shows `path`.
    pub fn is_open_elsewhere(&self, path: &Vec<String>, slot: i32) -> (elsewhere: bool)
        requires
            self.wf(),
        ensures
            elsewhere == open_elsewhere(self@, path.deep_view(), slot),
    {
        self.holder_elsewhere(path, slot).is_some()
    }

    /// The slot other than `slot` that shows `path`, if there is one.
    fn holder_elsewhere(&self, path: &Vec<String>, slot: i32) -> (other: Option<i32>)
        requires
            self.wf(),
        ensures
            other is Some <==> open_elsewhere(self@, path.deep_view(), slot),
            other matches Some(s) ==> s != slot && self@.contains_key(s) && self@[s]
                == path.deep_view(),
    {
        let ghost l = self.listing();
        proof {
            self.lemma_distinct();
        }
        match self.holder_of(path) {
            Some(i) => {
                proof {
                    lemma_records_value(l, i as int);
                }
                if self.entries[i].0 != slot {
                    Some(self.entries[i].0)
                } else {
                    proof {
                        assert forall|other: i32|
                            other != slot && #[trigger] self@.contains_key(other) implies self@[other]
                            != path.deep_view() by {
                            lemma_records_domain(l, other);
                            let j = choose|j: int| 0 <= j < l.len() && (#[trigger] l[j]).0 == other;
                            lemma_records_value(l, j);
                            if j < i {
                                assert(l[j].1 != l[i as int].1);
                            } else if i < j {
                                assert(l[i as int].1 != l[j].1);
                            }
                        }
                    }
                    None
                }
            },
            None => {
                proof {
                    assert forall|other: i32|
                        other != slot && #[trigger] self@.contains_key(other) implies self@[other]
                        != path.deep_view() by {
                        lemma_records_domain(l, other);
                        let j = choose|j: int| 0 <= j < l.len() && (#[trigger] l[j]).0 == other;
                        lemma_records_value(l, j);
                    }
                }
                None
            },
        }
    }

    /// Shows `path` in `slot`. Refused where another slot shows the path
    /// already; the registry is then unchanged. Else the view that occupied
    /// `slot` is closed first, and its path is returned.
    pub fn open_view(&mut self, path: Vec<String>, slot: i32) -> (opened: Result<
        Option<Vec<String>>,
        AlreadyOpenElsewhere,
    >)
        requires
            old(self).wf(),
        ensures
            final(self).wf(),
            final(self)@ == after_open_view(old(self)@, path.deep_view(), slot),
            opened is Err <==> open_elsewhere(old(self)@, path.deep_view(), slot),
            opened matches Ok(closed) ==> closed.deep_view() == if old(self)@.contains_key(slot) {
                Some(old(self)@[slot])
            } else {
                None
            },
            opened matches Err(e) ==> e.slot != slot && old(self)@.contains_key(e.slot) && old(
                self,
            )@[e.slot] == path.deep_view(),
    {
        let ghost l = self.listing();
        let ghost views = self@;
        proof {
            self.lemma_distinct();
        }
        match self.holder_elsewhere(&path, slot) {
            Some(other) => {
                return Err(AlreadyOpenElsewhere { slot: other });
            },
            None => {},
        }
        let at = self.lower_bound(slot);
        proof {
            lemma_records_domain(l, slot);
            assert forall|j: int| 0 <= j < l.len() && (#[trigger] l[j]).0 != slot implies l[j].1
                != path.deep_view() by {
                lemma_records_value(l, j);
                assert(views.contains_key(l[j].0));
            }
        }
        if at < self.entries.len() && self.entries[at].0 == slot {
            proof {
                lemma_records_value(l, at as int);
                lemma_records_update(l, at as int, path.deep_view());
            }
            let closed = self.entries.remove(at);
            self.entries.insert(at, (slot, path));
            proof {
                assert(self.listing() =~= l.update(at as int, (slot, path.deep_view())));
                let now = self.listing();
                assert forall|i: int, j: int| 0 <= i < j < now.len() implies (#[trigger] now[i]).0
                    < (#[trigger] now[j]).0 by {
                    assert(now[i].0 == l[i].0 && now[j].0 == l[j].0);
                }
                assert forall|i: int, j: int| 0 <= i < j < now.len() implies (#[trigger] now[i]).1
                    != (#[trigger] now[j]).1 by {
                    if i != at && j != at {
                        assert(now[i] == l[i] && now[j] == l[j]);
                    } else if i == at {
                        assert(now[j] == l[j]);
                    } else {
                        assert(now[i] == l[i]);
                    }
                }
            }
            Ok(Some(closed.1))
        } else {
            proof {
                assert(!has_key(l, slot));
                lemma_records_insert_at(l, at as int, slot, path.deep_view());
            }
            self.entries.insert(at, (slot, path));
            proof {
                assert(self.listing() =~= l.insert(at as int, (slot, path.deep_view())));
                let now = self.listing();
                assert forall|i: int| 0 <= i < now.len() && i != at implies #[trigger] now[i]
                    == l[if i < at {
                    i
                } else {
                    i - 1
                }] by {}
                assert forall|i: int, j: int| 0 <= i < j < now.len() implies (#[trigger] now[i]).0
                    < (#[trigger] now[j]).0 by {
                    let i0 = if i < at { i } else { i - 1 };
                    let j0 = if j < at { j } else { j - 1 };
                    if i != at {
                        assert(now[i] == l[i0]);
                    }
                    if j != at {
                        assert(now[j] == l[j0]);
                    }
                }
                assert forall|i: int, j: int| 0 <= i < j < now.len() implies (#[trigger] now[i]).1
                    != (#[trigger] now[j]).1 by {
                    let i0 = if i < at { i } else { i - 1 };
                    let j0 = if j < at { j } else { j - 1 };
                    if i != at {
                        assert(now[i] == l[i0]);
                    }
                    if j != at {
                        assert(now[j] == l[j0]);
                    }
                }
            }
            Ok(None)
        }
    }

    /// Closes the view in `slot` and returns the path it showed, if one was
    /// open there.
    pub fn close_view(&mut self, slot: i32) -> (closed: Option<Vec<String>>)
        requires
            old(self).wf(),
        ensures
            final(self).wf(),
            final(self)@ == old(self)@.remove(slot),
            closed.deep_view() == if old(self)@.contains_key(slot) {
                Some(old(self)@[slot])
            } else {
                None
            },
    {
        let ghost l = self.listing();
        proof {
            self.lemma_distinct();
            lemma_records_domain(l, slot);
        }
        let at = self.lower_bound(slot);
        if at < self.entries.len() && self.entries[at].0 == slot {
            proof {
                lemma_records_value(l, at as int);
                lemma_records_remove(l, at as int);
            }
            let closed = self.entries.remove(at);
            proof {
                assert(self.listing() =~= l.remove(at as int));
                let now = self.listing();
                assert forall|i: int| 0 <= i < now.len() implies #[trigger] now[i] == l[if i < at {
                    i
                } else {
                    i + 1
                }] by {}
                assert forall|i: int, j: int| 0 <= i < j < now.len() implies (#[trigger] now[i]).0
                    < (#[trigger] now[j]).0 by {
                    let i0 = if i < at { i } else { i + 1 };
                    let j0 = if j < at { j } else { j + 1 };
                    assert(now[i] == l[i0] && now[j] == l[j0]);
                }
                assert forall|i: int, j: int| 0 <= i < j < now.len() implies (#[trigger] now[i]).1
                    != (#[trigger] now[j]).1 by {
                    let i0 = if i < at { i } else { i + 1 };
                    let j0 = if j < at { j } else { j + 1 };
                    assert(now[i] == l[i0] && now[j] == l[j0]);
                }
            }
            Some(closed.1)
        } else {
            proof {
                assert forall|j: int| 0 <= j < l.len() implies (#[trigger] l[j]).0 != slot by {
                    if j > at {
                        assert(l[at as int].0 < l[j].0);
                    }
                }
                assert(!has_key(l, slot));
                assert(self@ =~= old(self)@.remove(slot));
            }
            None
        }
    }

    /// The slots with an open view, rising.
    pub fn slots(&self) -> (slots: Vec<i32>)
        requires
            self.wf(),
        ensures
            lists_slots_of(slots@, self@),
    {
        let ghost l = self.listing();
        let mut slots: Vec<i32> = Vec::new();
        let mut i: usize = 0;
        while i < self.entries.len()
            invariant
                i <= self.entries.len(),
                l == self.listing(),
                slots.len() == i,
                forall|j: int| 0 <= j < i ==> slots@[j] == (#[trigger] l[j]).0,
            decreases self.entries.len() - i,
        {
            slots.push(self.entries[i].0);
            i += 1;
        }
        proof {
            self.lemma_distinct();
            assert forall|a: int, b: int| 0 <= a < b < slots.len() implies slots@[a] < slots@[b] by {
                assert(l[a].0 < l[b].0);
            }
            assert forall|slot: i32| slots@.contains(slot) <==> self@.contains_key(slot) by {
                lemma_records_domain(l, slot);
                if slots@.contains(slot) {
                    let j = choose|j: int| 0 <= j < slots@.len() && slots@[j] == slot;
                    assert(l[j].0 == slot);
                }
                if has_key(l, slot) {
                    let j = choose|j: int| 0 <= j < l.len() && (#[trigger] l[j]).0 == slot;
                    assert(slots@[j] == slot);
                }
            }
        }
        slots
    }

    /// Closes every view and returns the slots that had one, rising.
    pub fn close_all(&mut self) -> (closed: Vec<i32>)
        requires
            old(self).wf(),
        ensures
            final(self).wf(),
            final(self)@ == Map::<i32, Seq<Seq<char>>>::empty(),
            lists_slots_of(closed@, old(self)@),
    {
        let closed = self.slots();
        self.entries.clear();
        assert(self.listing() =~= Seq::empty());
        closed
    }

    /// The paths shown in the open views, by rising slot.
    pub fn open_paths(&self) -> (paths: Vec<Vec<String>>)
        requires
            self.wf(),
        ensures
            paths.deep_view() == paths_of(self.listing()),
            paths.deep_view().to_set() == self@.values(),
    {
        let ghost l = self.listing();
        let mut paths: Vec<Vec<String>> = Vec::new();
        let mut i: usize = 0;
        while i < self.entries.len()
            invariant
                i <= self.entries.len(),
                l == self.listing(),
                paths.len() == i,
                forall|j: int| 0 <= j < i ==> (#[trigger] paths.deep_view()[j]) == l[j].1,
            decreases self.entries.len() - i,
        {
            let copy = clone_path(&self.entries[i].1);
            let ghost before = paths.deep_view();
            paths.push(copy);
            assert(paths.deep_view() =~= before.push(copy.deep_view()));
            i += 1;
        }
        proof {
            self.lemma_distinct();
            let listed = paths.deep_view();
            assert forall|p: Seq<Seq<char>>| listed.to_set().contains(p) <==> self@.values().contains(
                p,
            ) by {
                if listed.contains(p) {
                    let j = choose|j: int| 0 <= j < listed.len() && listed[j] == p;
                    lemma_records_value(l, j);
                    assert(self@.contains_key(l[j].0) && self@[l[j].0] == p);
                }
                if self@.values().contains(p) {
                    let slot = choose|slot: i32| self@.contains_key(slot) && self@[slot] == p;
                    lemma_records_domain(l, slot);
                    let j = choose|j: int| 0 <= j < l.len() && (#[trigger] l[j]).0 == slot;
                    lemma_records_value(l, j);
                    assert(listed[j] == p);
                }
            }
            assert(listed.to_set() =~= self@.values());
            assert(listed =~= paths_of(l));
        }
        paths
    }
}

} // verus!
