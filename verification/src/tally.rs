//! The mathematical model of the in-process map: what a count is, what an
//! increment does to the map, and what a whole run of increments adds up to.
use vstd::prelude::*;

verus! {

/// The count that `m` holds for `k`: the stored value, or zero for a key
/// that was never incremented.
pub open spec fn count(m: Map<Seq<char>, i64>, k: Seq<char>) -> int {
    if m.contains_key(k) {
        m[k] as int
    } else {
        0
    }
}

/// The map after one increment of `k`: `k` now holds its earlier count plus
/// one, and every other key is as it was.
pub open spec fn bumped(m: Map<Seq<char>, i64>, k: Seq<char>) -> Map<Seq<char>, i64> {
    m.insert(k, (count(m, k) + 1) as i64)
}

/// The map after the keys of `ks` were incremented one after another,
/// starting from `m`.
pub open spec fn replay(m: Map<Seq<char>, i64>, ks: Seq<Seq<char>>) -> Map<Seq<char>, i64>
    decreases ks.len(),
{
    if ks.len() == 0 {
        m
    } else {
        bumped(replay(m, ks.drop_last()), ks.last())
    }
}

/// The value that the increment at position `i` of the run `ks` returns,
/// when the run starts from `m`.
pub open spec fn reply(m: Map<Seq<char>, i64>, ks: Seq<Seq<char>>, i: int) -> int
    recommends
        0 <= i < ks.len(),
{
    count(replay(m, ks.take(i)), ks[i]) + 1
}

/// How many of the increments in `ks` are for the key `k`.
pub open spec fn occurrences(ks: Seq<Seq<char>>, k: Seq<char>) -> nat
    decreases ks.len(),
{
    if ks.len() == 0 {
        0
    } else {
        occurrences(ks.drop_last(), k) + if ks.last() == k {
            1nat
        } else {
            0nat
        }
    }
}

/// A run cannot hold more increments of one key than it holds increments.
pub proof fn lemma_occurrences_bounded(ks: Seq<Seq<char>>, k: Seq<char>)
    ensures
        occurrences(ks, k) <= ks.len(),
    decreases ks.len(),
{
    if ks.len() > 0 {
        lemma_occurrences_bounded(ks.drop_last(), k);
    }
}

/// A run of increments adds to each key exactly the number of increments
/// made for it, as long as no count leaves the range of `i64`.
pub proof fn lemma_replay_counts(m: Map<Seq<char>, i64>, ks: Seq<Seq<char>>, k: Seq<char>)
    requires
        forall|key: Seq<char>| #[trigger] count(m, key) + ks.len() <= i64::MAX,
    ensures
        count(replay(m, ks), k) == count(m, k) + occurrences(ks, k),
        occurrences(ks, k) > 0 ==> replay(m, ks).contains_key(k),
        occurrences(ks, k) == 0 ==> (replay(m, ks).contains_key(k) <==> m.contains_key(k)),
    decreases ks.len(),
{
    if ks.len() > 0 {
        let init = ks.drop_last();
        let last = ks.last();
        lemma_replay_counts(m, init, k);
        lemma_replay_counts(m, init, last);
        lemma_occurrences_bounded(init, last);
        assert(count(m, last) + ks.len() <= i64::MAX);
    }
}

/// A key that no increment was made for is absent from a map that started
/// empty: a lookup of it finds nothing, not a zero.
pub proof fn law_unseen_key_is_absent(ks: Seq<Seq<char>>, k: Seq<char>)
    requires
        ks.len() <= i64::MAX,
        occurrences(ks, k) == 0,
    ensures
        !replay(Map::empty(), ks).contains_key(k),
{
    lemma_replay_counts(Map::empty(), ks, k);
}

/// After exactly one increment of a key that the map did not hold, the map
/// holds that key with the count one.
pub proof fn law_first_increment_gives_one(m: Map<Seq<char>, i64>, k: Seq<char>)
    requires
        !m.contains_key(k),
    ensures
        bumped(m, k).contains_key(k),
        bumped(m, k)[k] == 1,
{
}

/// In any run of increments from an empty map, whatever keys it mixes, each
/// increment returns the number of increments made so far for its own key,
/// itself included. So the increments of one key return 1, 2, 3 and so on in
/// the order in which they ran: no value twice, none left out.
pub proof fn law_increments_are_serial(ks: Seq<Seq<char>>, i: int)
    requires
        ks.len() <= i64::MAX,
        0 <= i < ks.len(),
    ensures
        reply(Map::empty(), ks, i) == occurrences(ks.take(i + 1), ks[i]),
        1 <= reply(Map::empty(), ks, i) <= i + 1,
{
    let before = ks.take(i);
    let upto = ks.take(i + 1);
    lemma_replay_counts(Map::empty(), before, ks[i]);
    lemma_occurrences_bounded(before, ks[i]);
    assert(upto.drop_last() =~= before);
    assert(upto.last() == ks[i]);
}

/// A longer prefix of a run holds at least as many increments of a key as a
/// shorter one.
pub proof fn lemma_occurrences_grow(ks: Seq<Seq<char>>, k: Seq<char>, a: int, b: int)
    requires
        0 <= a <= b <= ks.len(),
    ensures
        occurrences(ks.take(a), k) <= occurrences(ks.take(b), k),
    decreases b - a,
{
    if a < b {
        lemma_occurrences_grow(ks, k, a, b - 1);
        assert(ks.take(b).drop_last() =~= ks.take(b - 1));
    }
}

/// Of two increments of the same key in a run from an empty map, the later
/// one returns the greater value: no two of them return the same.
pub proof fn law_no_value_is_returned_twice(ks: Seq<Seq<char>>, i: int, j: int)
    requires
        ks.len() <= i64::MAX,
        0 <= i < j < ks.len(),
        ks[i] == ks[j],
    ensures
        reply(Map::empty(), ks, i) < reply(Map::empty(), ks, j),
{
    let k = ks[i];
    law_increments_are_serial(ks, i);
    law_increments_are_serial(ks, j);
    lemma_occurrences_grow(ks, k, i + 1, j);
    assert(ks.take(j + 1).drop_last() =~= ks.take(j));
}

/// In a run from an empty map that holds `n` increments of a key, every
/// value from 1 to `n` is returned by one of them: none is left out.
pub proof fn law_no_value_is_left_out(ks: Seq<Seq<char>>, k: Seq<char>, v: int)
    requires
        ks.len() <= i64::MAX,
        1 <= v <= occurrences(ks, k),
    ensures
        exists|i: int| 0 <= i < ks.len() && ks[i] == k && reply(Map::empty(), ks, i) == v,
    decreases ks.len(),
{
    let last = ks.len() - 1;
    if ks.last() == k && v == occurrences(ks, k) {
        law_increments_are_serial(ks, last);
        assert(ks.take(last + 1) =~= ks);
        assert(ks[last] == k && reply(Map::empty(), ks, last) == v);
    } else {
        let init = ks.drop_last();
        law_no_value_is_left_out(init, k, v);
        let i = choose|i: int| 0 <= i < init.len() && init[i] == k && reply(Map::empty(), init, i) == v;
        assert(init.take(i) =~= ks.take(i));
        assert(ks[i] == k && reply(Map::empty(), ks, i) == v);
    }
}

/// In a run of `n` increments of one key alone from an empty map, the
/// increment at position `i` returns `i + 1`, and the key ends at `n`.
pub proof fn law_same_key_counts_up(ks: Seq<Seq<char>>, k: Seq<char>, i: int)
    requires
        ks.len() <= i64::MAX,
        forall|j: int| 0 <= j < ks.len() ==> ks[j] == k,
        0 <= i < ks.len(),
    ensures
        reply(Map::empty(), ks, i) == i + 1,
        count(replay(Map::empty(), ks), k) == ks.len(),
{
    law_increments_are_serial(ks, i);
    lemma_only_key_occurs_always(ks.take(i + 1), k);
    lemma_only_key_occurs_always(ks, k);
    lemma_replay_counts(Map::empty(), ks, k);
}

/// A run made of one key alone holds as many increments of it as it is long.
pub proof fn lemma_only_key_occurs_always(ks: Seq<Seq<char>>, k: Seq<char>)
    requires
        forall|j: int| 0 <= j < ks.len() ==> ks[j] == k,
    ensures
        occurrences(ks, k) == ks.len(),
    decreases ks.len(),
{
    if ks.len() > 0 {
        lemma_only_key_occurs_always(ks.drop_last(), k);
    }
}

/// Increments of different keys do not interfere: after any run from an
/// empty map, in whatever order its increments were interleaved, each key
/// holds exactly the number of increments made for it.
pub proof fn law_keys_are_independent(ks: Seq<Seq<char>>, k: Seq<char>)
    requires
        ks.len() <= i64::MAX,
    ensures
        count(replay(Map::empty(), ks), k) == occurrences(ks, k),
        replay(Map::empty(), ks).contains_key(k) <==> occurrences(ks, k) > 0,
{
    lemma_replay_counts(Map::empty(), ks, k);
}

} // verus!
