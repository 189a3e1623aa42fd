//! The order of names: by the first character in which two names differ, a
//! name before every longer name that starts with it. The order of paths: by
//! the first segment in which two paths differ, a path before every longer
//! path that starts with it. Sorting by name.

use crate::text::chars_of;
use vstd::multiset::Multiset;
use vstd::prelude::*;
use vstd::seq_lib::*;
use vstd::string::*;

verus! {

/// `a` comes before `b` in the order of names.
pub open spec fn precedes(a: Seq<char>, b: Seq<char>) -> bool
    decreases a.len(),
{
    if b.len() == 0 {
        false
    } else if a.len() == 0 {
        true
    } else if a[0] != b[0] {
        (a[0] as int) < (b[0] as int)
    } else {
        precedes(a.drop_first(), b.drop_first())
    }
}

/// No name comes before itself.
pub proof fn lemma_precedes_irreflexive(a: Seq<char>)
    ensures
        !precedes(a, a),
    decreases a.len(),
{
    if a.len() > 0 {
        lemma_precedes_irreflexive(a.drop_first());
    }
}

/// Of two different names one comes before the other, and never both.
pub proof fn lemma_precedes_total(a: Seq<char>, b: Seq<char>)
    ensures
        a != b ==> precedes(a, b) || precedes(b, a),
        !(precedes(a, b) && precedes(b, a)),
    decreases a.len(),
{
    if a.len() > 0 && b.len() > 0 {
        if a[0] == b[0] {
            lemma_precedes_total(a.drop_first(), b.drop_first());
            if a.drop_first() == b.drop_first() {
                assert(a =~= seq![a[0]] + a.drop_first());
                assert(b =~= seq![b[0]] + b.drop_first());
            }
        } else {
            assert(a[0] as int != b[0] as int);
        }
    } else if a.len() == 0 && b.len() == 0 {
        assert(a =~= b);
    }
}

/// The order of names is transitive.
pub proof fn lemma_precedes_transitive(a: Seq<char>, b: Seq<char>, c: Seq<char>)
    requires
        precedes(a, b),
        precedes(b, c),
    ensures
        precedes(a, c),
    decreases a.len(),
{
    if a.len() > 0 {
        if a[0] == b[0] && b[0] == c[0] {
            lemma_precedes_transitive(a.drop_first(), b.drop_first(), c.drop_first());
        }
    }
}

/// Whether `a` comes before `b` in the order of names.
pub fn str_precedes(a: &str, b: &str) -> (before: bool)
    ensures
        before == precedes(a@, b@),
{
    let x = chars_of(a);
    let y = chars_of(b);
    let mut i: usize = 0;
    assert(a@.skip(0) =~= a@ && b@.skip(0) =~= b@);
    while i < x.len() && i < y.len()
        invariant
            i <= x.len(),
            i <= y.len(),
            x@ == a@,
            y@ == b@,
            precedes(a@, b@) == precedes(a@.skip(i as int), b@.skip(i as int)),
        decreases x.len() - i,
    {
        let p = x[i];
        let q = y[i];
        proof {
            let s = a@.skip(i as int);
            let t = b@.skip(i as int);
            assert(s[0] == p && t[0] == q);
            assert(s.drop_first() =~= a@.skip(i + 1));
            assert(t.drop_first() =~= b@.skip(i + 1));
        }
        if p != q {
            return p < q;
        }
        i += 1;
    }
    i < y.len()
}

/// `a` comes before `b` in the order of paths.
pub open spec fn path_precedes(a: Seq<Seq<char>>, b: Seq<Seq<char>>) -> bool
    decreases a.len(),
{
    if b.len() == 0 {
        false
    } else if a.len() == 0 {
        true
    } else if a[0] != b[0] {
        precedes(a[0], b[0])
    } else {
        path_precedes(a.drop_first(), b.drop_first())
    }
}

/// No path comes before itself.
pub proof fn lemma_path_precedes_irreflexive(a: Seq<Seq<char>>)
    ensures
        !path_precedes(a, a),
    decreases a.len(),
{
    if a.len() > 0 {
        lemma_path_precedes_irreflexive(a.drop_first());
    }
}

/// Of two different paths one comes before the other, and never both.
pub proof fn lemma_path_precedes_total(a: Seq<Seq<char>>, b: Seq<Seq<char>>)
    ensures
        a != b ==> path_precedes(a, b) || path_precedes(b, a),
        !(path_precedes(a, b) && path_precedes(b, a)),
    decreases a.len(),
{
    if a.len() > 0 && b.len() > 0 {
        if a[0] == b[0] {
            lemma_path_precedes_total(a.drop_first(), b.drop_first());
            if a.drop_first() == b.drop_first() {
                assert(a =~= seq![a[0]] + a.drop_first());
                assert(b =~= seq![b[0]] + b.drop_first());
            }
        } else {
            lemma_precedes_total(a[0], b[0]);
        }
    } else if a.len() == 0 && b.len() == 0 {
        assert(a =~= b);
    }
}

/// The order of paths is transitive.
pub proof fn lemma_path_precedes_transitive(
    a: Seq<Seq<char>>,
    b: Seq<Seq<char>>,
    c: Seq<Seq<char>>,
)
    requires
        path_precedes(a, b),
        path_precedes(b, c),
    ensures
        path_precedes(a, c),
    decreases a.len(),
{
    if a.len() > 0 {
        if a[0] == b[0] && b[0] == c[0] {
            lemma_path_precedes_transitive(a.drop_first(), b.drop_first(), c.drop_first());
        } else if a[0] != b[0] && b[0] != c[0] {
            lemma_precedes_transitive(a[0], b[0], c[0]);
            lemma_precedes_irreflexive(a[0]);
        }
    }
}

/// Where one path stands with respect to another.
#[derive(Clone, Copy, PartialEq, Eq, Structural, Debug)]
pub enum Place {
    Before,
    Same,
    After,
}

/// Where `a` stands with respect to `b` in the order of paths.
pub fn place_of(a: &Vec<String>, b: &Vec<String>) -> (place: Place)
    ensures
        match place {
            Place::Before => path_precedes(a.deep_view(), b.deep_view()),
            Place::Same => a.deep_view() == b.deep_view(),
            Place::After => path_precedes(b.deep_view(), a.deep_view()),
        },
{
    let ghost x = a.deep_view();
    let ghost y = b.deep_view();
    let mut i: usize = 0;
    assert(x.skip(0) =~= x && y.skip(0) =~= y);
    while i < a.len() && i < b.len()
        invariant
            i <= a.len(),
            i <= b.len(),
            x == a.deep_view(),
            y == b.deep_view(),
            forall|j: int| 0 <= j < i ==> x[j] == y[j],
            path_precedes(x, y) == path_precedes(x.skip(i as int), y.skip(i as int)),
            path_precedes(y, x) == path_precedes(y.skip(i as int), x.skip(i as int)),
        decreases a.len() - i,
    {
        proof {
            let s = x.skip(i as int);
            let t = y.skip(i as int);
            assert(s[0] == a[i as int]@ && t[0] == b[i as int]@);
            assert(s.drop_first() =~= x.skip(i + 1));
            assert(t.drop_first() =~= y.skip(i + 1));
        }
        if a[i] != b[i] {
            proof {
                lemma_precedes_total(a[i as int]@, b[i as int]@);
            }
            if str_precedes(a[i].as_str(), b[i].as_str()) {
                return Place::Before;
            } else {
                return Place::After;
            }
        }
        i += 1;
    }
    if i < b.len() {
        Place::Before
    } else if i < a.len() {
        Place::After
    } else {
        assert(x =~= y);
        Place::Same
    }
}

/// The names of the entries never fall: no entry has a name that comes
/// before the name of an entry ahead of it.
pub open spec fn sorted_by_name<V>(entries: Seq<(Seq<char>, V)>) -> bool {
    forall|i: int, j: int|
        0 <= i < j < entries.len() ==> !precedes(
            (#[trigger] entries[j]).0,
            (#[trigger] entries[i]).0,
        )
}

/// The entries by rising name. Every entry is kept, as often as it occurs.
pub fn sort_by_name<T: DeepView>(entries: Vec<(String, T)>) -> (sorted: Vec<(String, T)>)
    ensures
        sorted_by_name(sorted.deep_view()),
        sorted.deep_view().to_multiset() == entries.deep_view().to_multiset(),
{
    broadcast use vstd::multiset::group_multiset_axioms;

    let ghost all = entries.deep_view();
    let mut rest = entries;
    let mut sorted: Vec<(String, T)> = Vec::new();
    proof {
        assert(sorted.deep_view() =~= Seq::empty());
        lemma_empty_multiset(sorted.deep_view());
        assert(sorted.deep_view().to_multiset().add(rest.deep_view().to_multiset())
            =~= all.to_multiset());
    }
    while rest.len() > 0
        invariant
            sorted_by_name(sorted.deep_view()),
            sorted.deep_view().to_multiset().add(rest.deep_view().to_multiset())
                == all.to_multiset(),
        decreases rest.len(),
    {
        let ghost waiting = rest.deep_view();
        let ghost placed = sorted.deep_view();
        let entry = rest.pop().unwrap();
        let ghost e = entry.deep_view();
        proof {
            assert(rest.deep_view() =~= waiting.drop_last());
            assert(waiting =~= waiting.drop_last().push(e));
            to_multiset_build(waiting.drop_last(), e);
            assert(waiting.to_multiset() =~= waiting.drop_last().to_multiset().insert(e));
        }
        let mut at: usize = 0;
        while at < sorted.len() && !str_precedes(entry.0.as_str(), sorted[at].0.as_str())
            invariant
                at <= sorted.len(),
                placed == sorted.deep_view(),
                e == entry.deep_view(),
                forall|i: int| 0 <= i < at ==> !precedes(e.0, (#[trigger] placed[i]).0),
            decreases sorted.len() - at,
        {
            assert(placed[at as int].0 == sorted[at as int].0@);
            at += 1;
        }
        proof {
            if at < sorted.len() {
                assert(placed[at as int].0 == sorted[at as int].0@);
            }
        }
        sorted.insert(at, entry);
        proof {
            let now = sorted.deep_view();
            assert(now =~= placed.insert(at as int, e));
            to_multiset_insert(placed, at as int, e);
            assert(now.to_multiset() =~= placed.to_multiset().insert(e));
            assert forall|i: int, j: int| 0 <= i < j < now.len() implies !precedes(
                (#[trigger] now[j]).0,
                (#[trigger] now[i]).0,
            ) by {
                if j < at {
                    assert(now[i] == placed[i] && now[j] == placed[j]);
                } else if i > at {
                    assert(now[i] == placed[i - 1] && now[j] == placed[j - 1]);
                } else if i < at && j > at {
                    assert(now[i] == placed[i] && now[j] == placed[j - 1]);
                } else if j == at {
                    assert(now[i] == placed[i]);
                } else {
                    assert(now[j] == placed[j - 1]);
                    let first = placed[at as int].0;
                    let later = placed[j - 1].0;
                    assert(precedes(e.0, first));
                    lemma_precedes_total(e.0, first);
                    if precedes(later, e.0) {
                        lemma_precedes_transitive(later, e.0, first);
                        if j - 1 > at {
                            assert(!precedes(placed[j - 1].0, placed[at as int].0));
                        }
                    }
                }
            }
            assert(sorted.deep_view().to_multiset().add(rest.deep_view().to_multiset())
                =~= all.to_multiset());
        }
    }
    proof {
        assert(rest.deep_view() =~= Seq::empty());
        lemma_empty_multiset(rest.deep_view());
        assert(sorted.deep_view().to_multiset().add(rest.deep_view().to_multiset())
            =~= sorted.deep_view().to_multiset());
    }
    sorted
}

/// `a` does not come after `b` in the order of names.
pub open spec fn name_leq() -> spec_fn(Seq<char>, Seq<char>) -> bool {
    |a: Seq<char>, b: Seq<char>| !precedes(b, a)
}

/// The names by rising name.
pub open spec fn sorted_names(names: Seq<Seq<char>>) -> Seq<Seq<char>> {
    names.sort_by(name_leq())
}

/// The order of names is a total order.
pub proof fn lemma_name_order_is_total()
    ensures
        vstd::relations::total_ordering(name_leq()),
{
    let leq = name_leq();
    assert forall|a: Seq<char>| #[trigger] leq(a, a) by {
        lemma_precedes_irreflexive(a);
    }
    assert forall|a: Seq<char>, b: Seq<char>| #[trigger] leq(a, b) && #[trigger] leq(b, a) implies a
        == b by {
        lemma_precedes_total(a, b);
    }
    assert forall|a: Seq<char>, b: Seq<char>, c: Seq<char>| #[trigger]
        leq(a, b) && #[trigger] leq(b, c) implies leq(a, c) by {
        if precedes(c, a) {
            lemma_precedes_total(a, b);
            lemma_precedes_total(b, c);
            if a == b {
            } else if b == c {
            } else {
                lemma_precedes_transitive(b, c, a);
            }
        }
    }
    assert forall|a: Seq<char>, b: Seq<char>| #[trigger] leq(a, b) || #[trigger] leq(b, a) by {
        lemma_precedes_total(a, b);
    }
}

/// The names of a list of entries have the multiset of the names.
proof fn lemma_names_multiset(entries: Seq<(Seq<char>, ())>, names: Seq<Seq<char>>)
    requires
        names.len() == entries.len(),
        forall|i: int| 0 <= i < names.len() ==> names[i] == (#[trigger] entries[i]).0,
    ensures
        forall|name: Seq<char>|
            names.to_multiset().count(name) == entries.to_multiset().count((name, ())),
    decreases names.len(),
{
    broadcast use vstd::multiset::group_multiset_axioms;

    if names.len() == 0 {
        lemma_empty_multiset(names);
        lemma_empty_multiset(entries);
    } else {
        let front_names = names.drop_last();
        let front_entries = entries.drop_last();
        assert forall|i: int| 0 <= i < front_names.len() implies front_names[i] == (
        #[trigger] front_entries[i]).0 by {
            assert(front_entries[i] == entries[i]);
        }
        lemma_names_multiset(front_entries, front_names);
        assert(names =~= front_names.push(names.last()));
        assert(entries =~= front_entries.push(entries.last()));
        to_multiset_build(front_names, names.last());
        to_multiset_build(front_entries, entries.last());
        assert(entries.last() == (names.last(), ()));
    }
}

/// The names by rising name.
pub fn sort_names(names: Vec<String>) -> (sorted: Vec<String>)
    ensures
        sorted.deep_view() == sorted_names(names.deep_view()),
{
    broadcast use vstd::multiset::group_multiset_axioms;

    let ghost given = names.deep_view();
    let mut names = names;
    let mut entries: Vec<(String, ())> = Vec::new();
    while names.len() > 0
        invariant
            entries.deep_view().len() + names.len() == given.len(),
            forall|i: int|
                0 <= i < entries.len() ==> (#[trigger] entries.deep_view()[i]).0 == given[given.len()
                    - 1 - i],
            forall|i: int| 0 <= i < names.len() ==> (#[trigger] names.deep_view()[i]) == given[i],
        decreases names.len(),
    {
        let ghost before = entries.deep_view();
        let ghost waiting = names.deep_view();
        let name = names.pop().unwrap();
        entries.push((name, ()));
        proof {
            assert(names.deep_view() =~= waiting.drop_last());
            assert(name@ == waiting.last());
            assert(entries.deep_view() =~= before.push((name@, ())));
            assert forall|i: int| 0 <= i < names.len() implies (#[trigger] names.deep_view()[i])
                == given[i] by {
                assert(names.deep_view()[i] == waiting[i]);
            }
        }
    }
    let ghost unsorted = entries.deep_view();
    let entries = sort_by_name(entries);
    let ghost ordered = entries.deep_view();
    let mut entries = entries;
    let mut sorted: Vec<String> = Vec::new();
    let mut i: usize = 0;
    while i < entries.len()
        invariant
            i <= entries.len(),
            ordered == entries.deep_view(),
            sorted.len() == i,
            forall|j: int| 0 <= j < i ==> (#[trigger] sorted.deep_view()[j]) == ordered[j].0,
        decreases entries.len() - i,
    {
        let ghost before = sorted.deep_view();
        let name = entries[i].0.clone();
        sorted.push(name);
        assert(sorted.deep_view() =~= before.push(name@));
        i += 1;
    }
    proof {
        let result = sorted.deep_view();
        let reversed = Seq::new(given.len(), |i: int| given[given.len() - 1 - i]);
        lemma_names_multiset(unsorted, reversed);
        lemma_names_multiset(ordered, result);
        given.lemma_reverse_to_multiset();
        assert(reversed =~= given.reverse());
        assert(result.to_multiset() =~= given.to_multiset());
        lemma_name_order_is_total();
        given.lemma_sort_by_ensures(name_leq());
        assert(vstd::relations::sorted_by(result, name_leq())) by {
            assert forall|a: int, b: int| 0 <= a < b < result.len() implies #[trigger] name_leq()(
                result[a],
                result[b],
            ) by {
                assert(!precedes(ordered[b].0, ordered[a].0));
            }
        }
        lemma_sorted_unique(result, sorted_names(given), name_leq());
    }
    sorted
}

/// A list without items has the multiset without items.
proof fn lemma_empty_multiset<A>(s: Seq<A>)
    requires
        s.len() == 0,
    ensures
        s.to_multiset() == Multiset::<A>::empty(),
{
    broadcast use vstd::multiset::group_multiset_axioms;

    s.to_multiset_ensures();
    assert forall|a: A| s.to_multiset().count(a) == 0 by {
        assert(!s.contains(a));
    }
    assert(s.to_multiset() =~= Multiset::<A>::empty());
}

} // verus!
