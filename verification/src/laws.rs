//! The guarantees of the identifier system that relate several operations or
//! whole sequences of operations, stated and proved once for every kind.

use vstd::prelude::*;

use crate::wide::{mint_step128, replace_step128, NumId128, NumIdKind128};
use crate::{mint_step, replace_step, NumId, NumIdKind};

verus! {

/// Along any chain of auto-mints, the counter grows by exactly one per mint.
proof fn lemma_chain_counter(kinds: Seq<NumIdKind>, ids: Seq<NumId>, i: int, j: int)
    requires
        kinds.len() == ids.len() + 1,
        forall|k: int| 0 <= k < ids.len() ==> mint_step(kinds[k], kinds[k + 1], ids[k]),
        0 <= i <= j <= ids.len(),
    ensures
        kinds[j].current() == kinds[i].current() + (j - i),
    decreases j - i,
{
    if i < j {
        lemma_chain_counter(kinds, ids, i, j - 1);
        assert(mint_step(kinds[j - 1], kinds[j], ids[j - 1]));
    }
}

/// Monotonicity of auto-mint: along any sequence of mints on one kind, the
/// sequence of minted values is strictly increasing. `kinds` holds the
/// successive states of the kind, `ids` the identifiers minted between them.
pub proof fn lemma_minted_values_strictly_increase(kinds: Seq<NumIdKind>, ids: Seq<NumId>)
    requires
        kinds.len() == ids.len() + 1,
        forall|k: int| 0 <= k < ids.len() ==> mint_step(kinds[k], kinds[k + 1], ids[k]),
    ensures
        forall|i: int, j: int| 0 <= i < j < ids.len() ==> ids[i]@ < ids[j]@,
{
    assert forall|i: int, j: int| 0 <= i < j < ids.len() implies ids[i]@ < ids[j]@ by {
        assert(mint_step(kinds[i], kinds[i + 1], ids[i]));
        assert(mint_step(kinds[j], kinds[j + 1], ids[j]));
        lemma_chain_counter(kinds, ids, i + 1, j + 1);
    }
}

/// The reserved range stays reserved: an auto-mint on a well-formed kind
/// never produces a value at or below the initial value, so it can never
/// collide with an identifier built by `create_lower`.
pub proof fn lemma_minted_above_reserved(pre: NumIdKind, post: NumIdKind, id: NumId)
    requires
        pre.wf(),
        mint_step(pre, post, id),
    ensures
        id@ > post.initial(),
        post.wf(),
{
}

/// Reapplying a high-water-mark candidate is a no-op: whatever the first
/// attempt with `value` did, a second attempt with the same `value` reports
/// `false` and leaves the counter where the first attempt left it.
pub proof fn lemma_replace_reapply_is_noop(
    pre: NumIdKind,
    mid: NumIdKind,
    post: NumIdKind,
    value: u64,
    first: bool,
    second: bool,
)
    requires
        replace_step(pre, mid, value, first),
        replace_step(mid, post, value, second),
    ensures
        !second,
        post.current() == mid.current(),
        post.initial() == mid.initial(),
{
}

/// Promotion: re-minting an identifier that lies strictly above the initial
/// value of the kind that tracks it yields a strictly greater value, equal to
/// the kind's counter right after the call.
pub proof fn lemma_reproduce_promotes(pre: NumIdKind, post: NumIdKind, id: NumId, r: NumId)
    requires
        pre.wf(),
        id@ <= pre.current(),
        id@ > pre.initial(),
        mint_step(pre, post, r),
    ensures
        r@ > id@,
        r@ == post.current(),
{
}

/// Along any chain of auto-mints, the counter grows by exactly one per mint.
proof fn lemma_chain_counter_u128(kinds: Seq<NumIdKind128>, ids: Seq<NumId128>, i: int, j: int)
    requires
        kinds.len() == ids.len() + 1,
        forall|k: int| 0 <= k < ids.len() ==> mint_step128(kinds[k], kinds[k + 1], ids[k]),
        0 <= i <= j <= ids.len(),
    ensures
        kinds[j].current() == kinds[i].current() + (j - i),
    decreases j - i,
{
    if i < j {
        lemma_chain_counter_u128(kinds, ids, i, j - 1);
        assert(mint_step128(kinds[j - 1], kinds[j], ids[j - 1]));
    }
}

/// Monotonicity of auto-mint for 128-bit kinds: along any sequence of mints
/// on one kind, the sequence of minted values is strictly increasing.
pub proof fn lemma_minted_values_strictly_increase_u128(
    kinds: Seq<NumIdKind128>,
    ids: Seq<NumId128>,
)
    requires
        kinds.len() == ids.len() + 1,
        forall|k: int| 0 <= k < ids.len() ==> mint_step128(kinds[k], kinds[k + 1], ids[k]),
    ensures
        forall|i: int, j: int| 0 <= i < j < ids.len() ==> ids[i]@ < ids[j]@,
{
    assert forall|i: int, j: int| 0 <= i < j < ids.len() implies ids[i]@ < ids[j]@ by {
        assert(mint_step128(kinds[i], kinds[i + 1], ids[i]));
        assert(mint_step128(kinds[j], kinds[j + 1], ids[j]));
        lemma_chain_counter_u128(kinds, ids, i + 1, j + 1);
    }
}

/// The reserved range stays reserved for 128-bit kinds: an auto-mint on a
/// well-formed kind never produces a value at or below the initial value.
pub proof fn lemma_minted_above_reserved_u128(
    pre: NumIdKind128,
    post: NumIdKind128,
    id: NumId128,
)
    requires
        pre.wf(),
        mint_step128(pre, post, id),
    ensures
        id@ > post.initial(),
        post.wf(),
{
}

/// Reapplying a high-water-mark candidate on a 128-bit kind is a no-op: the
/// second attempt with the same `value` reports `false` and leaves the
/// counter where the first attempt left it.
pub proof fn lemma_replace_reapply_is_noop_u128(
    pre: NumIdKind128,
    mid: NumIdKind128,
    post: NumIdKind128,
    value: u128,
    first: bool,
    second: bool,
)
    requires
        replace_step128(pre, mid, value, first),
        replace_step128(mid, post, value, second),
    ensures
        !second,
        post.current() == mid.current(),
        post.initial() == mid.initial(),
{
}

/// Promotion for 128-bit kinds: re-minting an identifier that lies strictly
/// above the initial value of the kind that tracks it yields a strictly
/// greater value, equal to the kind's counter right after the call.
pub proof fn lemma_reproduce_promotes_u128(
    pre: NumIdKind128,
    post: NumIdKind128,
    id: NumId128,
    r: NumId128,
)
    requires
        pre.wf(),
        id@ <= pre.current(),
        id@ > pre.initial(),
        mint_step128(pre, post, r),
    ensures
        r@ > id@,
        r@ == post.current(),
{
}

} // verus!
