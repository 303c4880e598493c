//! The voice pool as a mathematical object: which slot a new voice takes,
//! what a block does to each slot, and the laws that follow for sequences of
//! starts.
use vstd::prelude::*;
use crate::handler::NUM_VOICES;
use crate::voice::{envelope_advanced, envelope_span, EnvelopeSpan, Voice};

verus! {

/// The id that follows `c`: ids count up by one and wrap at `u64::MAX`.
pub open spec fn next_id(c: u64) -> u64 {
    if c == u64::MAX {
        0
    } else {
        (c + 1) as u64
    }
}

/// The id of an occupied slot.
pub open spec fn slot_id(s: Seq<Option<Voice>>, i: int) -> u64 {
    s[i]->Some_0.id
}

/// Some slot of the pool is empty.
pub open spec fn has_free_slot(s: Seq<Option<Voice>>) -> bool {
    exists|i: int| 0 <= i < s.len() && #[trigger] s[i] is None
}

/// `i` is the lowest-indexed empty slot.
pub open spec fn is_first_free(s: Seq<Option<Voice>>, i: int) -> bool {
    &&& 0 <= i < s.len()
    &&& s[i] is None
    &&& forall|j: int| 0 <= j < i ==> #[trigger] s[j] is Some
}

/// `i` holds the voice with the smallest id, and no slot before it holds a
/// voice with that id.
pub open spec fn is_oldest(s: Seq<Option<Voice>>, i: int) -> bool {
    &&& 0 <= i < s.len()
    &&& s[i] is Some
    &&& forall|j: int|
        0 <= j < s.len() && #[trigger] s[j] is Some ==> slot_id(s, j) >= slot_id(s, i)
    &&& forall|j: int| 0 <= j < i && #[trigger] s[j] is Some ==> slot_id(s, j) > slot_id(s, i)
}

/// The slot that a new voice takes: the lowest empty one, or, in a full
/// pool, the one holding the oldest voice.
pub open spec fn is_start_slot(s: Seq<Option<Voice>>, i: int) -> bool {
    if has_free_slot(s) {
        is_first_free(s, i)
    } else {
        is_oldest(s, i)
    }
}

/// The slot that a new voice takes in pool `s`.
pub open spec fn start_slot(s: Seq<Option<Voice>>) -> int {
    choose|i: int| is_start_slot(s, i)
}

/// The pool after voice `v` has been started in it.
pub open spec fn pool_after_start(s: Seq<Option<Voice>>, v: Voice) -> Seq<Option<Voice>> {
    s.update(start_slot(s), Some(v))
}

/// The start slot of a pool is unique.
pub proof fn lemma_start_slot_unique(s: Seq<Option<Voice>>, i: int, j: int)
    requires
        is_start_slot(s, i),
        is_start_slot(s, j),
    ensures
        i == j,
{
    if has_free_slot(s) {
        if i < j {
            assert(s[i] is Some);
        } else if j < i {
            assert(s[j] is Some);
        }
    } else {
        if i < j {
            assert(slot_id(s, i) > slot_id(s, j));
        } else if j < i {
            assert(slot_id(s, j) > slot_id(s, i));
        }
    }
}

/// Any slot that meets the start-slot rule is the one that `start_slot`
/// names.
pub proof fn lemma_start_slot_is(s: Seq<Option<Voice>>, i: int)
    requires
        is_start_slot(s, i),
    ensures
        start_slot(s) == i,
{
    lemma_start_slot_unique(s, i, start_slot(s));
}

/// What one slot reads from the envelope table over a block of `block_len`
/// samples: nothing when it is empty.
pub open spec fn block_span(slot: Option<Voice>, block_len: nat) -> Option<EnvelopeSpan> {
    match slot {
        Some(v) => Some(envelope_span(v, block_len)),
        None => None,
    }
}

/// One slot after a block of `block_len` samples.
pub open spec fn block_voice(slot: Option<Voice>, block_len: nat) -> Option<Voice> {
    match slot {
        Some(v) => Some(envelope_advanced(v, block_len)),
        None => None,
    }
}

/// The pool with every slot empty.
pub open spec fn empty_pool() -> Seq<Option<Voice>> {
    Seq::new(NUM_VOICES as nat, |i: int| None)
}

/// The pool after the voices `vs` have been started in it, in order.
pub open spec fn pool_after_starts(s: Seq<Option<Voice>>, vs: Seq<Voice>) -> Seq<Option<Voice>>
    decreases vs.len(),
{
    if vs.len() == 0 {
        s
    } else {
        pool_after_start(pool_after_starts(s, vs.drop_last()), vs.last())
    }
}

/// The number of occupied slots.
pub open spec fn active_count(s: Seq<Option<Voice>>) -> nat
    decreases s.len(),
{
    if s.len() == 0 {
        0
    } else {
        active_count(s.drop_last()) + if s.last() is Some {
            1nat
        } else {
            0nat
        }
    }
}

/// Among the first `n` slots of a full pool, one holds the smallest id with
/// no earlier slot holding that id.
proof fn lemma_oldest_in_prefix(s: Seq<Option<Voice>>, n: int) -> (k: int)
    requires
        1 <= n <= s.len(),
        forall|j: int| 0 <= j < s.len() ==> #[trigger] s[j] is Some,
    ensures
        0 <= k < n,
        forall|j: int| 0 <= j < n ==> #[trigger] slot_id(s, j) >= slot_id(s, k),
        forall|j: int| 0 <= j < k ==> #[trigger] slot_id(s, j) > slot_id(s, k),
    decreases n,
{
    if n == 1 {
        0
    } else {
        let k = lemma_oldest_in_prefix(s, n - 1);
        if slot_id(s, n - 1) < slot_id(s, k) {
            n - 1
        } else {
            k
        }
    }
}

/// The first `n` slots either are all occupied or contain a first empty
/// slot.
proof fn lemma_first_free_in_prefix(s: Seq<Option<Voice>>, n: int)
    requires
        0 <= n <= s.len(),
    ensures
        (forall|j: int| 0 <= j < n ==> #[trigger] s[j] is Some) || exists|i: int|
            0 <= i < n && is_first_free(s, i),
    decreases n,
{
    if n > 0 {
        lemma_first_free_in_prefix(s, n - 1);
        if forall|j: int| 0 <= j < n - 1 ==> #[trigger] s[j] is Some {
            if s[n - 1] is None {
                assert(is_first_free(s, n - 1));
            } else {
                assert forall|j: int| 0 <= j < n implies #[trigger] s[j] is Some by {
                    if j < n - 1 {
                        assert(s[j] is Some);
                    }
                }
            }
        }
    }
}

/// Every non-empty pool has a start slot, and `start_slot` meets the rule.
pub proof fn lemma_start_slot_exists(s: Seq<Option<Voice>>)
    requires
        s.len() > 0,
    ensures
        is_start_slot(s, start_slot(s)),
        0 <= start_slot(s) < s.len(),
{
    if has_free_slot(s) {
        lemma_first_free_in_prefix(s, s.len() as int);
        let i = choose|i: int| 0 <= i < s.len() && s[i] is None;
        assert(s[i] is None);
        let k = choose|k: int| 0 <= k < s.len() && is_first_free(s, k);
        assert(is_start_slot(s, k));
    } else {
        assert forall|j: int| 0 <= j < s.len() implies #[trigger] s[j] is Some by {
            if s[j] is None {
                assert(has_free_slot(s));
            }
        }
        let k = lemma_oldest_in_prefix(s, s.len() as int);
        assert(is_start_slot(s, k));
    }
}

/// Starting voices one after another in an empty pool puts them in slots
/// 0, 1, 2, ... in order, leaving the rest empty: `NUM_VOICES` starts fill
/// every slot.
pub proof fn lemma_starts_fill_in_order(vs: Seq<Voice>)
    requires
        vs.len() <= NUM_VOICES,
    ensures
        pool_after_starts(empty_pool(), vs) == Seq::new(
            NUM_VOICES as nat,
            |i: int|
                if i < vs.len() {
                    Some(vs[i])
                } else {
                    None
                },
        ),
    decreases vs.len(),
{
    if vs.len() > 0 {
        let k = vs.len() - 1;
        let prev = vs.drop_last();
        lemma_starts_fill_in_order(prev);
        let p = pool_after_starts(empty_pool(), prev);
        assert(p[k] is None);
        assert forall|j: int| 0 <= j < k implies #[trigger] p[j] is Some by {
            assert(p[j] == Some(prev[j]));
        }
        assert(has_free_slot(p));
        assert(is_first_free(p, k));
        lemma_start_slot_is(p, k);
        assert(pool_after_starts(empty_pool(), vs) =~= Seq::new(
            NUM_VOICES as nat,
            |i: int|
                if i < vs.len() {
                    Some(vs[i])
                } else {
                    None
                },
        ));
    }
}

/// In a full pool a new voice evicts exactly the voice with the smallest id
/// (the oldest one) and leaves every other slot untouched.
pub proof fn lemma_full_pool_evicts_oldest(s: Seq<Option<Voice>>, v: Voice)
    requires
        s.len() == NUM_VOICES,
        forall|j: int| 0 <= j < s.len() ==> #[trigger] s[j] is Some,
    ensures
        0 <= start_slot(s) < NUM_VOICES,
        forall|j: int| 0 <= j < s.len() ==> #[trigger] slot_id(s, j) >= slot_id(s, start_slot(s)),
        pool_after_start(s, v)[start_slot(s)] == Some(v),
        forall|j: int|
            0 <= j < s.len() && j != start_slot(s) ==> #[trigger] pool_after_start(s, v)[j] == s[j],
        pool_after_start(s, v).len() == NUM_VOICES,
{
    if has_free_slot(s) {
        let i = choose|i: int| 0 <= i < s.len() && s[i] is None;
        assert(s[i] is Some);
    }
    lemma_start_slot_exists(s);
}

proof fn lemma_active_count_bounded(s: Seq<Option<Voice>>)
    ensures
        active_count(s) <= s.len(),
    decreases s.len(),
{
    if s.len() > 0 {
        lemma_active_count_bounded(s.drop_last());
    }
}

proof fn lemma_active_count_full(s: Seq<Option<Voice>>)
    requires
        forall|j: int| 0 <= j < s.len() ==> #[trigger] s[j] is Some,
    ensures
        active_count(s) == s.len(),
    decreases s.len(),
{
    if s.len() > 0 {
        let p = s.drop_last();
        assert forall|j: int| 0 <= j < p.len() implies #[trigger] p[j] is Some by {
            assert(p[j] == s[j]);
        }
        lemma_active_count_full(p);
    }
}

proof fn lemma_active_count_update(s: Seq<Option<Voice>>, k: int, v: Voice)
    requires
        0 <= k < s.len(),
    ensures
        active_count(s.update(k, Some(v))) == active_count(s) + if s[k] is None {
            1nat
        } else {
            0nat
        },
    decreases s.len(),
{
    let u = s.update(k, Some(v));
    if k < s.len() - 1 {
        assert(u.drop_last() =~= s.drop_last().update(k, Some(v)));
        lemma_active_count_update(s.drop_last(), k, v);
    } else {
        assert(u.drop_last() =~= s.drop_last());
    }
}

/// Starting a voice never grows the pool: it holds `NUM_VOICES` slots after
/// as before, and one more of them is occupied unless all already were.
pub proof fn lemma_start_keeps_pool_bounded(s: Seq<Option<Voice>>, v: Voice)
    requires
        s.len() == NUM_VOICES,
    ensures
        pool_after_start(s, v).len() == NUM_VOICES,
        active_count(pool_after_start(s, v)) == min_count(active_count(s) + 1, NUM_VOICES as nat),
{
    lemma_start_slot_exists(s);
    let k = start_slot(s);
    lemma_active_count_update(s, k, v);
    lemma_active_count_bounded(pool_after_start(s, v));
    if !has_free_slot(s) {
        assert forall|j: int| 0 <= j < s.len() implies #[trigger] s[j] is Some by {
            if s[j] is None {
                assert(has_free_slot(s));
            }
        }
        lemma_active_count_full(s);
    }
}

/// `min(a, b)` on naturals.
pub open spec fn min_count(a: nat, b: nat) -> nat {
    if a < b {
        a
    } else {
        b
    }
}

} // verus!
