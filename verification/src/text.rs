//! String helpers over the character view of a string: equality, suffix
//! tests, and splitting and joining on a delimiter.

use vstd::prelude::*;
use vstd::string::*;

verus! {

/// `s` ends with `suffix`.
pub open spec fn ends_with(s: Seq<char>, suffix: Seq<char>) -> bool {
    suffix.len() <= s.len() && s.subrange(s.len() - suffix.len(), s.len() as int) == suffix
}

/// The pieces of `s` between occurrences of `d`. There is always at least one
/// piece; a leading, trailing or doubled delimiter yields an empty piece.
pub open spec fn split_on(s: Seq<char>, d: char) -> Seq<Seq<char>>
    decreases s.len(),
{
    if s.len() == 0 {
        seq![Seq::<char>::empty()]
    } else {
        let prev = split_on(s.drop_last(), d);
        if s.last() == d {
            prev.push(Seq::<char>::empty())
        } else {
            prev.drop_last().push(prev.last().push(s.last()))
        }
    }
}

/// The pieces of `parts` written one after another with `d` between
/// neighbours.
pub open spec fn join_with(parts: Seq<Seq<char>>, d: char) -> Seq<char>
    decreases parts.len(),
{
    if parts.len() == 0 {
        Seq::<char>::empty()
    } else if parts.len() == 1 {
        parts[0]
    } else {
        join_with(parts.drop_last(), d).push(d) + parts.last()
    }
}

/// No piece of `parts` holds the character `d`.
pub open spec fn free_of(parts: Seq<Seq<char>>, d: char) -> bool {
    forall|i: int| 0 <= i < parts.len() ==> !(#[trigger] parts[i]).contains(d)
}

/// Splitting never yields an empty list, and no piece holds the delimiter.
pub proof fn lemma_split_pieces(s: Seq<char>, d: char)
    ensures
        split_on(s, d).len() >= 1,
        free_of(split_on(s, d), d),
    decreases s.len(),
{
    if s.len() > 0 {
        lemma_split_pieces(s.drop_last(), d);
        let prev = split_on(s.drop_last(), d);
        if s.last() != d {
            let grown = prev.last().push(s.last());
            assert forall|j: int| 0 <= j < grown.len() implies grown[j] != d by {
                if j < prev.last().len() {
                    assert(prev.last().contains(grown[j]));
                }
            }
            let now = split_on(s, d);
            assert forall|i: int| 0 <= i < now.len() implies !(#[trigger] now[i]).contains(d) by {
                if i < now.len() - 1 {
                    assert(now[i] == prev[i]);
                }
            }
        } else {
            let now = split_on(s, d);
            assert forall|i: int| 0 <= i < now.len() implies !(#[trigger] now[i]).contains(d) by {
                if i < now.len() - 1 {
                    assert(now[i] == prev[i]);
                }
            }
        }
    }
}

/// Joining the pieces of a split gives the string back.
pub proof fn lemma_join_of_split(s: Seq<char>, d: char)
    ensures
        join_with(split_on(s, d), d) == s,
    decreases s.len(),
{
    if s.len() == 0 {
        assert(join_with(seq![Seq::<char>::empty()], d) == Seq::<char>::empty());
    } else {
        let front = s.drop_last();
        let prev = split_on(front, d);
        lemma_join_of_split(front, d);
        lemma_split_pieces(front, d);
        let now = split_on(s, d);
        if s.last() == d {
            assert(now.drop_last() == prev);
            assert(join_with(now, d) == join_with(prev, d).push(d) + Seq::<char>::empty());
            assert(join_with(now, d) == front.push(d));
            assert(front.push(d) == s);
        } else {
            let grown = prev.last().push(s.last());
            if prev.len() == 1 {
                assert(now == seq![grown]);
                assert(join_with(prev, d) == prev[0]);
                assert(join_with(now, d) == front.push(s.last()));
            } else {
                assert(now.drop_last() == prev.drop_last());
                assert(join_with(now, d) == join_with(prev.drop_last(), d).push(d) + grown);
                assert(join_with(prev, d) == join_with(prev.drop_last(), d).push(d) + prev.last());
                assert(join_with(now, d) == join_with(prev, d).push(s.last()));
            }
            assert(front.push(s.last()) == s);
        }
    }
}

/// Appending a piece without delimiter extends the last piece of the split.
proof fn lemma_split_append_piece(s: Seq<char>, p: Seq<char>, d: char)
    requires
        !p.contains(d),
    ensures
        split_on(s + p, d) == split_on(s, d).drop_last().push(split_on(s, d).last() + p),
    decreases p.len(),
{
    lemma_split_pieces(s, d);
    let base = split_on(s, d);
    if p.len() == 0 {
        assert(s + p == s);
        assert(base.last() + p == base.last());
        assert(base.drop_last().push(base.last()) == base);
    } else {
        let front = p.drop_last();
        assert forall|j: int| 0 <= j < front.len() implies front[j] != d by {
            assert(p.contains(p[j]));
        }
        lemma_split_append_piece(s, front, d);
        assert((s + p).drop_last() == s + front);
        assert((s + p).last() == p.last());
        assert(p.contains(p.last()));
        let mid = split_on(s + front, d);
        assert(mid.last() == base.last() + front);
        assert(mid.drop_last() == base.drop_last());
        assert((base.last() + front).push(p.last()) == base.last() + p);
    }
}

/// Splitting the join of a non-empty list of pieces, none of which holds the
/// delimiter, gives the pieces back.
pub proof fn lemma_split_of_join(parts: Seq<Seq<char>>, d: char)
    requires
        parts.len() >= 1,
        free_of(parts, d),
    ensures
        split_on(join_with(parts, d), d) == parts,
    decreases parts.len(),
{
    if parts.len() == 1 {
        let p = parts[0];
        lemma_split_append_piece(Seq::<char>::empty(), p, d);
        assert(Seq::<char>::empty() + p == p);
        assert(split_on(Seq::<char>::empty(), d) == seq![Seq::<char>::empty()]);
        assert(seq![Seq::<char>::empty()].drop_last().push(Seq::<char>::empty() + p) == seq![p]);
        assert(parts == seq![p]);
    } else {
        let front = parts.drop_last();
        assert forall|i: int| 0 <= i < front.len() implies !(#[trigger] front[i]).contains(d) by {
            assert(front[i] == parts[i]);
        }
        lemma_split_of_join(front, d);
        let head = join_with(front, d).push(d);
        assert(head.drop_last() == join_with(front, d));
        assert(split_on(head, d) == front.push(Seq::<char>::empty()));
        lemma_split_append_piece(head, parts.last(), d);
        assert(front.push(Seq::<char>::empty()).drop_last() == front);
        assert(Seq::<char>::empty() + parts.last() == parts.last());
        assert(front.push(parts.last()) == parts);
    }
}

/// The characters of `s`, in order.
pub fn chars_of(s: &str) -> (v: Vec<char>)
    ensures
        v@ == s@,
{
    let mut v: Vec<char> = Vec::new();
    for c in it: s.chars()
        invariant
            v@ == s@.take(it.index() as int),
            it.seq() == s@,
    {
        v.push(c);
    }
    v
}

/// Whether two string slices hold the same characters.
pub fn str_eq(a: &str, b: &str) -> (same: bool)
    ensures
        same == (a@ == b@),
{
    let x = chars_of(a);
    let y = chars_of(b);
    if x.len() != y.len() {
        return false;
    }
    let mut i: usize = 0;
    while i < x.len()
        invariant
            i <= x.len(),
            x.len() == y.len(),
            x@ == a@,
            y@ == b@,
            forall|j: int| 0 <= j < i ==> x@[j] == y@[j],
        decreases x.len() - i,
    {
        if x[i] != y[i] {
            return false;
        }
        i += 1;
    }
    assert(x@ =~= y@);
    true
}

/// Whether `s` ends with `suffix`.
pub fn str_ends_with(s: &str, suffix: &str) -> (yes: bool)
    ensures
        yes == ends_with(s@, suffix@),
{
    let x = chars_of(s);
    let y = chars_of(suffix);
    if y.len() > x.len() {
        return false;
    }
    let off: usize = x.len() - y.len();
    let mut i: usize = 0;
    while i < y.len()
        invariant
            i <= y.len(),
            off + y.len() == x.len(),
            x@ == s@,
            y@ == suffix@,
            forall|j: int| 0 <= j < i ==> x@[off + j] == y@[j],
        decreases y.len() - i,
    {
        if x[off + i] != y[i] {
            proof {
                let tail = x@.subrange(off as int, x.len() as int);
                assert(tail[i as int] == x@[off + i]);
            }
            return false;
        }
        i += 1;
    }
    assert(x@.subrange(off as int, x.len() as int) =~= y@);
    true
}

/// Whether the character `d` occurs in `s`.
pub fn str_contains_char(s: &str, d: char) -> (yes: bool)
    ensures
        yes == s@.contains(d),
{
    let x = chars_of(s);
    let mut i: usize = 0;
    while i < x.len()
        invariant
            i <= x.len(),
            x@ == s@,
            forall|j: int| 0 <= j < i ==> x@[j] != d,
        decreases x.len() - i,
    {
        if x[i] == d {
            return true;
        }
        i += 1;
    }
    false
}

/// The pieces of `s` between occurrences of `d`, as owned strings.
pub fn split_str(s: &str, d: char) -> (pieces: Vec<String>)
    ensures
        pieces.deep_view() == split_on(s@, d),
{
    let x = chars_of(s);
    let n: usize = x.len();
    let mut pieces: Vec<String> = Vec::new();
    let mut start: usize = 0;
    let mut i: usize = 0;
    proof {
        assert(pieces.deep_view() =~= Seq::<Seq<char>>::empty());
        assert(s@.subrange(0, 0) =~= Seq::<char>::empty());
        assert(s@.take(0) =~= Seq::<char>::empty());
        assert(Seq::<Seq<char>>::empty().push(Seq::<char>::empty()) =~= seq![Seq::<char>::empty()]);
    }
    while i < n
        invariant
            start <= i <= n,
            n == x.len(),
            x@ == s@,
            pieces.deep_view().push(s@.subrange(start as int, i as int)) == split_on(
                s@.take(i as int),
                d,
            ),
        decreases n - i,
    {
        proof {
            let before = s@.take(i as int);
            let after = s@.take(i + 1);
            assert(after.drop_last() == before);
            assert(after.last() == s@[i as int]);
            let prev = split_on(before, d);
            assert(prev.last() == s@.subrange(start as int, i as int));
            assert(prev.drop_last() == pieces.deep_view());
            assert(s@.subrange(start as int, i as int).push(s@[i as int]) == s@.subrange(
                start as int,
                i + 1,
            ));
        }
        if x[i] == d {
            let piece = s.substring_char(start, i).to_owned();
            let ghost old_pieces = pieces.deep_view();
            pieces.push(piece);
            assert(pieces.deep_view() == old_pieces.push(piece@));
            start = i + 1;
            assert(s@.subrange(start as int, i + 1) == Seq::<char>::empty());
        }
        i += 1;
    }
    let piece = s.substring_char(start, n).to_owned();
    let ghost old_pieces = pieces.deep_view();
    pieces.push(piece);
    proof {
        assert(pieces.deep_view() == old_pieces.push(piece@));
        assert(s@.take(n as int) == s@);
    }
    pieces
}

/// The test that a piece has at least one character.
pub open spec fn non_empty() -> spec_fn(Seq<char>) -> bool {
    |piece: Seq<char>| piece.len() > 0
}

/// The pieces of `s` between occurrences of `d` that are not empty.
pub open spec fn non_empty_pieces(s: Seq<char>, d: char) -> Seq<Seq<char>> {
    split_on(s, d).filter(non_empty())
}

/// The pieces of `s` between occurrences of `d` that are not empty, as owned
/// strings.
pub fn split_non_empty(s: &str, d: char) -> (pieces: Vec<String>)
    ensures
        pieces.deep_view() == non_empty_pieces(s@, d),
{
    let all = split_str(s, d);
    let mut pieces: Vec<String> = Vec::new();
    let mut i: usize = 0;
    proof {
        assert(all.deep_view().take(0) =~= Seq::<Seq<char>>::empty());
        reveal_with_fuel(Seq::filter, 1);
        assert(pieces.deep_view() =~= all.deep_view().take(0).filter(non_empty()));
    }
    while i < all.len()
        invariant
            i <= all.len(),
            pieces.deep_view() == all.deep_view().take(i as int).filter(non_empty()),
        decreases all.len() - i,
    {
        proof {
            let before = all.deep_view().take(i as int);
            assert(all.deep_view().take(i + 1) =~= before.push(all[i as int]@));
            before.lemma_filter_push(all[i as int]@, non_empty());
        }
        if all[i].as_str().unicode_len() > 0 {
            let piece = all[i].clone();
            let ghost kept = pieces.deep_view();
            pieces.push(piece);
            assert(pieces.deep_view() =~= kept.push(piece@));
        }
        i += 1;
    }
    assert(all.deep_view().take(all.len() as int) == all.deep_view());
    pieces
}

/// `s` followed by `suffix`.
pub fn with_suffix(s: &str, suffix: &str) -> (joined: String)
    ensures
        joined@ == s@ + suffix@,
{
    let mut joined = s.to_owned();
    joined.append(suffix);
    joined
}

/// The views of `parts`, with `d` between neighbours; `d_text` is the
/// delimiter as a string.
pub fn join_strs(parts: &Vec<String>, d: char, d_text: &str) -> (joined: String)
    requires
        d_text@ == seq![d],
    ensures
        joined@ == join_with(parts.deep_view(), d),
{
    let mut joined = String::new();
    let mut i: usize = 0;
    while i < parts.len()
        invariant
            i <= parts.len(),
            d_text@ == seq![d],
            joined@ == join_with(parts.deep_view().take(i as int), d),
        decreases parts.len() - i,
    {
        proof {
            let before = parts.deep_view().take(i as int);
            let after = parts.deep_view().take(i + 1);
            assert(after.drop_last() == before);
            assert(after.last() == parts[i as int]@);
        }
        if i > 0 {
            joined.append(d_text);
            assert(joined@ == join_with(parts.deep_view().take(i as int), d).push(d));
        }
        joined.append(parts[i].as_str());
        i += 1;
    }
    assert(parts.deep_view().take(parts.len() as int) == parts.deep_view());
    joined
}

} // verus!
