//! The model of the store: a map from keys to values, what a lookup finds in
//! it, and the laws that inserts and lookups obey. `BackendService`'s view is
//! such a map, and its contracts are stated with `Map::insert` and `lookup`.
use vstd::prelude::*;

verus! {

/// What a lookup of `key` in the map `m` finds.
pub open spec fn lookup(m: Map<Seq<char>, Seq<char>>, key: Seq<char>) -> Option<Seq<char>> {
    if m.contains_key(key) {
        Some(m[key])
    } else {
        None
    }
}

/// The map after inserting each pair of `ops` in order into `m`.
pub open spec fn insert_all(
    m: Map<Seq<char>, Seq<char>>,
    ops: Seq<(Seq<char>, Seq<char>)>,
) -> Map<Seq<char>, Seq<char>>
    decreases ops.len(),
{
    if ops.len() == 0 {
        m
    } else {
        insert_all(m, ops.drop_last()).insert(ops.last().0, ops.last().1)
    }
}

/// After `insert_value(k, v)`, `get_value(k)` returns `v`, whatever the
/// store held before.
pub proof fn lemma_round_trip(m: Map<Seq<char>, Seq<char>>, k: Seq<char>, v: Seq<char>)
    ensures
        lookup(m.insert(k, v), k) == Some(v),
{
}

/// Of two inserts under one key, the later one wins.
pub proof fn lemma_overwrite(
    m: Map<Seq<char>, Seq<char>>,
    k: Seq<char>,
    v1: Seq<char>,
    v2: Seq<char>,
)
    ensures
        lookup(m.insert(k, v1).insert(k, v2), k) == Some(v2),
{
}

/// Starting from an empty store (as `BackendService::new` makes), a key
/// that no insert names is not found.
pub proof fn lemma_absent_key(ops: Seq<(Seq<char>, Seq<char>)>, k: Seq<char>)
    requires
        forall|i: int| 0 <= i < ops.len() ==> (#[trigger] ops[i]).0 != k,
    ensures
        lookup(insert_all(Map::empty(), ops), k) is None,
    decreases ops.len(),
{
    if ops.len() > 0 {
        let rest = ops.drop_last();
        assert forall|i: int| 0 <= i < rest.len() implies (#[trigger] rest[i]).0 != k by {
            assert(rest[i] == ops[i]);
        }
        lemma_absent_key(rest, k);
        assert(ops.last() == ops[ops.len() - 1]);
    }
}

/// Repeating an insert leaves the store as the first one left it.
pub proof fn lemma_repeat_insert(m: Map<Seq<char>, Seq<char>>, k: Seq<char>, v: Seq<char>)
    ensures
        m.insert(k, v).insert(k, v) == m.insert(k, v),
{
    assert(m.insert(k, v).insert(k, v) =~= m.insert(k, v));
}

/// An insert under one key is not seen through any other key.
pub proof fn lemma_other_keys_untouched(
    m: Map<Seq<char>, Seq<char>>,
    k: Seq<char>,
    v: Seq<char>,
    other: Seq<char>,
)
    requires
        other != k,
    ensures
        lookup(m.insert(k, v), other) == lookup(m, other),
{
}

/// A lookup after a run of inserts finds the value of the last insert under
/// its key, or what the store held before when no insert names the key.
pub proof fn lemma_lookup_after_inserts(
    m: Map<Seq<char>, Seq<char>>,
    ops: Seq<(Seq<char>, Seq<char>)>,
    k: Seq<char>,
)
    ensures
        lookup(insert_all(m, ops), k) == (if exists|i: int| 0 <= i < ops.len() && (#[trigger] ops[i]).0 == k {
            Some(ops[last_index_of(ops, k)].1)
        } else {
            lookup(m, k)
        }),
    decreases ops.len(),
{
    if ops.len() > 0 {
        let rest = ops.drop_last();
        lemma_lookup_after_inserts(m, rest, k);
        let n = ops.len() - 1;
        if ops[n].0 == k {
            assert(ops.last() == ops[n]);
            assert(ops[n].0 == k);
            assert(last_index_of(ops, k) == n);
        } else {
            assert(ops.last() == ops[n]);
            assert(last_index_of(ops, k) == last_index_of(rest, k));
            if exists|i: int| 0 <= i < ops.len() && (#[trigger] ops[i]).0 == k {
                let i = choose|i: int| 0 <= i < ops.len() && (#[trigger] ops[i]).0 == k;
                assert(rest[i] == ops[i]);
            }
            if exists|i: int| 0 <= i < rest.len() && (#[trigger] rest[i]).0 == k {
                let i = choose|i: int| 0 <= i < rest.len() && (#[trigger] rest[i]).0 == k;
                assert(rest[i] == ops[i]);
            }
            lemma_last_index_in_range(rest, k);
            if last_index_of(rest, k) >= 0 {
                assert(rest[last_index_of(rest, k)] == ops[last_index_of(rest, k)]);
            }
        }
    }
}

/// The position of the last pair of `ops` whose key is `k` (or -1).
pub open spec fn last_index_of(ops: Seq<(Seq<char>, Seq<char>)>, k: Seq<char>) -> int
    decreases ops.len(),
{
    if ops.len() == 0 {
        -1
    } else if ops.last().0 == k {
        ops.len() - 1
    } else {
        last_index_of(ops.drop_last(), k)
    }
}

proof fn lemma_last_index_in_range(ops: Seq<(Seq<char>, Seq<char>)>, k: Seq<char>)
    ensures
        -1 <= last_index_of(ops, k) < ops.len(),
        (exists|i: int| 0 <= i < ops.len() && (#[trigger] ops[i]).0 == k) ==> last_index_of(ops, k)
            >= 0,
    decreases ops.len(),
{
    if ops.len() > 0 {
        let rest = ops.drop_last();
        lemma_last_index_in_range(rest, k);
        if ops.last().0 != k && exists|i: int| 0 <= i < ops.len() && (#[trigger] ops[i]).0 == k {
            let i = choose|i: int| 0 <= i < ops.len() && (#[trigger] ops[i]).0 == k;
            assert(i != ops.len() - 1);
            assert(rest[i] == ops[i]);
        }
    }
}

} // verus!
