//! Paths of entries inside the open document: ordered lists of case-sensitive
//! segments, and their flattened form, the segments joined with a backslash.

use crate::text::{free_of, join_strs, join_with, split_on, split_str, str_contains_char};
use vstd::prelude::*;
use vstd::string::*;

verus! {

/// The character that separates the segments of a flattened path.
pub const KEY_DELIMITER: char = '\\';

/// The flattened form of a path: its segments joined with the delimiter.
pub open spec fn flat_key(path: Seq<Seq<char>>) -> Seq<char> {
    join_with(path, KEY_DELIMITER)
}

/// The path that a flattened key stands for: the key split on the delimiter.
pub open spec fn path_of_key(key: Seq<char>) -> Seq<Seq<char>> {
    split_on(key, KEY_DELIMITER)
}

/// The paths that flattening and splitting give back unchanged: those with at
/// least one segment, none of which holds the delimiter.
pub open spec fn survives_flattening(path: Seq<Seq<char>>) -> bool {
    path.len() >= 1 && free_of(path, KEY_DELIMITER)
}

/// Whether two paths have the same segments.
pub fn same_path(a: &Vec<String>, b: &Vec<String>) -> (same: bool)
    ensures
        same == (a.deep_view() == b.deep_view()),
{
    if a.len() != b.len() {
        assert(a.deep_view().len() != b.deep_view().len());
        return false;
    }
    let mut i: usize = 0;
    while i < a.len()
        invariant
            i <= a.len(),
            a.len() == b.len(),
            forall|j: int| 0 <= j < i ==> a[j]@ == b[j]@,
        decreases a.len() - i,
    {
        if a[i] != b[i] {
            assert(a.deep_view()[i as int] != b.deep_view()[i as int]);
            return false;
        }
        i += 1;
    }
    assert(a.deep_view() =~= b.deep_view());
    true
}

/// A copy of a path.
pub fn clone_path(path: &Vec<String>) -> (copy: Vec<String>)
    ensures
        copy.deep_view() == path.deep_view(),
        copy@ == path@,
{
    let mut copy: Vec<String> = Vec::new();
    let mut i: usize = 0;
    while i < path.len()
        invariant
            i <= path.len(),
            copy@ == path@.take(i as int),
        decreases path.len() - i,
    {
        copy.push(path[i].clone());
        i += 1;
    }
    assert(path@.take(path.len() as int) == path@);
    assert(copy.deep_view() =~= path.deep_view());
    copy
}

/// Whether `path` occurs in `list`.
pub fn contains_path(list: &Vec<Vec<String>>, path: &Vec<String>) -> (found: bool)
    ensures
        found == list.deep_view().contains(path.deep_view()),
{
    let mut i: usize = 0;
    while i < list.len()
        invariant
            i <= list.len(),
            forall|j: int| 0 <= j < i ==> list.deep_view()[j] != path.deep_view(),
        decreases list.len() - i,
    {
        if same_path(&list[i], path) {
            assert(list.deep_view()[i as int] == path.deep_view());
            return true;
        }
        i += 1;
    }
    false
}

/// The flattened form of `path`.
pub fn join_path(path: &Vec<String>) -> (key: String)
    ensures
        key@ == flat_key(path.deep_view()),
{
    proof {
        reveal_strlit("\\");
        assert("\\"@ =~= seq![KEY_DELIMITER]);
    }
    join_strs(path, KEY_DELIMITER, "\\")
}

/// The path that the flattened `key` stands for.
pub fn split_key(key: &str) -> (path: Vec<String>)
    ensures
        path.deep_view() == path_of_key(key@),
{
    split_str(key, KEY_DELIMITER)
}

/// Whether flattening `path` and splitting the result gives `path` back.
pub fn path_survives_flattening(path: &Vec<String>) -> (yes: bool)
    ensures
        yes == survives_flattening(path.deep_view()),
{
    if path.len() == 0 {
        return false;
    }
    let mut i: usize = 0;
    while i < path.len()
        invariant
            i <= path.len(),
            forall|j: int| 0 <= j < i ==> !(#[trigger] path.deep_view()[j]).contains(KEY_DELIMITER),
        decreases path.len() - i,
    {
        if str_contains_char(path[i].as_str(), KEY_DELIMITER) {
            assert(path.deep_view()[i as int].contains(KEY_DELIMITER));
            return false;
        }
        assert(path.deep_view()[i as int] == path[i as int]@);
        i += 1;
    }
    true
}

} // verus!
