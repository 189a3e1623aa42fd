//! Lists of key and value pairs read as maps: a later pair replaces an
//! earlier one with the same key.

use vstd::prelude::*;

verus! {

/// The map that a list of pairs stands for, the last pair of each key winning.
pub open spec fn records_to_map<K, V>(records: Seq<(K, V)>) -> Map<K, V>
    decreases records.len(),
{
    if records.len() == 0 {
        Map::empty()
    } else {
        records_to_map(records.drop_last()).insert(records.last().0, records.last().1)
    }
}

/// No key occurs twice in the list.
pub open spec fn distinct_keys<K, V>(records: Seq<(K, V)>) -> bool {
    forall|i: int, j: int|
        0 <= i < j < records.len() ==> (#[trigger] records[i]).0 != (#[trigger] records[j]).0
}

/// Some pair of the list has the key `k`.
pub open spec fn has_key<K, V>(records: Seq<(K, V)>, k: K) -> bool {
    exists|i: int| 0 <= i < records.len() && (#[trigger] records[i]).0 == k
}

/// The keys of the map are the keys of the list.
pub proof fn lemma_records_domain<K, V>(records: Seq<(K, V)>, k: K)
    ensures
        records_to_map(records).contains_key(k) <==> has_key(records, k),
    decreases records.len(),
{
    if records.len() > 0 {
        let front = records.drop_last();
        lemma_records_domain(front, k);
        if has_key(front, k) {
            let i = choose|i: int| 0 <= i < front.len() && (#[trigger] front[i]).0 == k;
            assert(records[i].0 == k);
        }
        if has_key(records, k) {
            let i = choose|i: int| 0 <= i < records.len() && (#[trigger] records[i]).0 == k;
            if i < front.len() {
                assert(front[i].0 == k);
            }
        }
    }
}

/// Where no key occurs twice, each pair of the list is a pair of the map.
pub proof fn lemma_records_value<K, V>(records: Seq<(K, V)>, i: int)
    requires
        distinct_keys(records),
        0 <= i < records.len(),
    ensures
        records_to_map(records).contains_key(records[i].0),
        records_to_map(records)[records[i].0] == records[i].1,
    decreases records.len(),
{
    let front = records.drop_last();
    if i < records.len() - 1 {
        assert forall|a: int, b: int| 0 <= a < b < front.len() implies (#[trigger] front[a]).0 != (
        #[trigger] front[b]).0 by {
            assert(front[a] == records[a]);
            assert(front[b] == records[b]);
        }
        lemma_records_value(front, i);
        assert(front[i] == records[i]);
        assert(records[i].0 != records[records.len() - 1].0);
    }
}

/// Dropping the last pair of a list without repeated keys leaves such a list.
pub proof fn lemma_distinct_keys_front<K, V>(records: Seq<(K, V)>)
    requires
        distinct_keys(records),
        records.len() > 0,
    ensures
        distinct_keys(records.drop_last()),
{
    let front = records.drop_last();
    assert forall|a: int, b: int| 0 <= a < b < front.len() implies (#[trigger] front[a]).0 != (
    #[trigger] front[b]).0 by {
        assert(front[a] == records[a]);
        assert(front[b] == records[b]);
    }
}

/// Replacing the value of the pair at `i` replaces the value of its key in
/// the map.
pub proof fn lemma_records_update<K, V>(records: Seq<(K, V)>, i: int, v: V)
    requires
        distinct_keys(records),
        0 <= i < records.len(),
    ensures
        distinct_keys(records.update(i, (records[i].0, v))),
        records_to_map(records.update(i, (records[i].0, v))) == records_to_map(records).insert(
            records[i].0,
            v,
        ),
{
    let k = records[i].0;
    let after = records.update(i, (k, v));
    assert forall|a: int, b: int| 0 <= a < b < after.len() implies (#[trigger] after[a]).0 != (
    #[trigger] after[b]).0 by {
        assert(after[a].0 == records[a].0);
        assert(after[b].0 == records[b].0);
    }
    let left = records_to_map(after);
    let right = records_to_map(records).insert(k, v);
    assert forall|x: K| left.contains_key(x) <==> right.contains_key(x) by {
        lemma_records_domain(after, x);
        lemma_records_domain(records, x);
        if has_key(after, x) {
            let j = choose|j: int| 0 <= j < after.len() && (#[trigger] after[j]).0 == x;
            assert(records[j].0 == x);
        }
        if has_key(records, x) {
            let j = choose|j: int| 0 <= j < records.len() && (#[trigger] records[j]).0 == x;
            assert(after[j].0 == x);
        }
        if x == k {
            assert(after[i].0 == x);
        }
    }
    assert forall|x: K| left.contains_key(x) implies left[x] == right[x] by {
        lemma_records_domain(after, x);
        let j = choose|j: int| 0 <= j < after.len() && (#[trigger] after[j]).0 == x;
        lemma_records_value(after, j);
        if j != i {
            assert(after[j] == records[j]);
            lemma_records_value(records, j);
        }
    }
    assert(left =~= right);
}

/// Appending a pair sets the value of its key in the map; the keys stay
/// distinct where the key is new.
pub proof fn lemma_records_push<K, V>(records: Seq<(K, V)>, k: K, v: V)
    ensures
        records_to_map(records.push((k, v))) == records_to_map(records).insert(k, v),
        distinct_keys(records) && !has_key(records, k) ==> distinct_keys(records.push((k, v))),
{
    let after = records.push((k, v));
    assert(after.drop_last() == records);
    if distinct_keys(records) && !has_key(records, k) {
        assert forall|a: int, b: int| 0 <= a < b < after.len() implies (#[trigger] after[a]).0 != (
        #[trigger] after[b]).0 by {
            assert(after[a] == records[a]);
            if b < records.len() {
                assert(after[b] == records[b]);
            }
        }
    }
}

/// Taking the pair at `i` out of the list takes its key out of the map.
pub proof fn lemma_records_remove<K, V>(records: Seq<(K, V)>, i: int)
    requires
        distinct_keys(records),
        0 <= i < records.len(),
    ensures
        distinct_keys(records.remove(i)),
        records_to_map(records.remove(i)) == records_to_map(records).remove(records[i].0),
{
    let k = records[i].0;
    let after = records.remove(i);
    assert forall|a: int| 0 <= a < after.len() implies #[trigger] after[a] == records[if a < i {
        a
    } else {
        a + 1
    }] by {}
    assert forall|a: int, b: int| 0 <= a < b < after.len() implies (#[trigger] after[a]).0 != (
    #[trigger] after[b]).0 by {
        let a0 = if a < i { a } else { a + 1 };
        let b0 = if b < i { b } else { b + 1 };
        assert(after[a] == records[a0]);
        assert(after[b] == records[b0]);
    }
    let left = records_to_map(after);
    let right = records_to_map(records).remove(k);
    assert forall|x: K| left.contains_key(x) <==> right.contains_key(x) by {
        lemma_records_domain(after, x);
        lemma_records_domain(records, x);
        if has_key(after, x) {
            let j = choose|j: int| 0 <= j < after.len() && (#[trigger] after[j]).0 == x;
            let j0 = if j < i { j } else { j + 1 };
            assert(after[j] == records[j0]);
            assert(records[j0].0 == x);
            if j0 < i {
                assert(records[j0].0 != records[i].0);
            } else {
                assert(records[i].0 != records[j0].0);
            }
        }
        if has_key(records, x) && x != k {
            let j = choose|j: int| 0 <= j < records.len() && (#[trigger] records[j]).0 == x;
            let j1 = if j < i { j } else { j - 1 };
            assert(after[j1] == records[j]);
        }
    }
    assert forall|x: K| left.contains_key(x) implies left[x] == right[x] by {
        lemma_records_domain(after, x);
        let j = choose|j: int| 0 <= j < after.len() && (#[trigger] after[j]).0 == x;
        let j0 = if j < i { j } else { j + 1 };
        assert(after[j] == records[j0]);
        lemma_records_value(after, j);
        lemma_records_value(records, j0);
    }
    assert(left =~= right);
}

/// Putting a pair with a new key anywhere into the list adds the key to the
/// map.
pub proof fn lemma_records_insert_at<K, V>(records: Seq<(K, V)>, at: int, k: K, v: V)
    requires
        distinct_keys(records),
        !has_key(records, k),
        0 <= at <= records.len(),
    ensures
        distinct_keys(records.insert(at, (k, v))),
        records_to_map(records.insert(at, (k, v))) == records_to_map(records).insert(k, v),
{
    let after = records.insert(at, (k, v));
    assert forall|a: int| 0 <= a < after.len() && a != at implies #[trigger] after[a]
        == records[if a < at {
        a
    } else {
        a - 1
    }] by {}
    assert forall|a: int, b: int| 0 <= a < b < after.len() implies (#[trigger] after[a]).0 != (
    #[trigger] after[b]).0 by {
        let a0 = if a < at { a } else { a - 1 };
        let b0 = if b < at { b } else { b - 1 };
        if a != at {
            assert(after[a] == records[a0]);
        }
        if b != at {
            assert(after[b] == records[b0]);
        }
    }
    let left = records_to_map(after);
    let right = records_to_map(records).insert(k, v);
    assert forall|x: K| left.contains_key(x) <==> right.contains_key(x) by {
        lemma_records_domain(after, x);
        lemma_records_domain(records, x);
        if has_key(after, x) && x != k {
            let j = choose|j: int| 0 <= j < after.len() && (#[trigger] after[j]).0 == x;
            let j0 = if j < at { j } else { j - 1 };
            assert(after[j] == records[j0]);
        }
        if has_key(records, x) {
            let j = choose|j: int| 0 <= j < records.len() && (#[trigger] records[j]).0 == x;
            let j1 = if j < at { j } else { j + 1 };
            assert(after[j1] == records[j]);
        }
        if x == k {
            assert(after[at].0 == x);
        }
    }
    assert forall|x: K| left.contains_key(x) implies left[x] == right[x] by {
        lemma_records_domain(after, x);
        let j = choose|j: int| 0 <= j < after.len() && (#[trigger] after[j]).0 == x;
        lemma_records_value(after, j);
        if j != at {
            let j0 = if j < at { j } else { j - 1 };
            assert(after[j] == records[j0]);
            lemma_records_value(records, j0);
        }
    }
    assert(left =~= right);
}

} // verus!
