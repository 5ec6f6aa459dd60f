//! The 128-bit-wide variant of the identifier kind, for declarations that
//! need headroom beyond 64 bits. The behaviour is that of [`crate::NumIdKind`]
//! with `u128` as the underlying value type.

use vstd::prelude::*;

use crate::NumIdError;

verus! {

/// A numerical identifier minted against a [`NumIdKind128`].
///
/// An identifier is an immutable value type wrapping exactly one `u128`;
/// equality, ordering and hashing are those of the wrapped value. Copying an
/// identifier never touches the kind's counter.
#[derive(Eq, PartialEq, Ord, PartialOrd, Clone, Copy, Hash, Debug, Structural)]
pub struct NumId128 {
    value: u128,
}

/// A declared 128-bit identifier kind: the fixed initial value together with
/// the kind's monotonic counter (its high-water mark).
///
/// Each declared kind is fully independent of every other kind. The counter
/// never decreases; it starts at the initial value and is raised by minting
/// or by reconciling an externally observed high-water mark.
pub struct NumIdKind128 {
    initial_value: u128,
    current_value: u128,
}

impl View for NumId128 {
    type V = u128;

    /// The wrapped value of the identifier.
    closed spec fn view(&self) -> u128 {
        self.value
    }
}

impl NumIdKind128 {
    /// The initial value fixed when the kind was declared.
    pub closed spec fn initial(self) -> u128 {
        self.initial_value
    }

    /// The counter: the value of the last identifier minted, or the initial
    /// value if none has been minted yet.
    pub closed spec fn current(self) -> u128 {
        self.current_value
    }

    /// Every kind keeps its counter at or above its initial value.
    pub open spec fn wf(self) -> bool {
        self.initial() <= self.current()
    }

    /// Declare a new identifier kind whose counter starts at `initial_value`.
    pub fn declare(initial_value: u128) -> (kind: NumIdKind128)
        ensures
            kind.initial() == initial_value,
            kind.current() == initial_value,
            kind.wf(),
    {
        NumIdKind128 { initial_value, current_value: initial_value }
    }
}

/// One auto-mint: `post` is `pre` with its counter raised by exactly one, and
/// `id` wraps the raised counter value.
pub open spec fn mint_step128(pre: NumIdKind128, post: NumIdKind128, id: NumId128) -> bool {
    &&& post.initial() == pre.initial()
    &&& post.current() == pre.current() + 1
    &&& id@ == post.current()
}

/// One attempt to raise the high-water mark to `value`: it succeeds exactly
/// when `value` lies strictly above the counter of `pre`, and then the counter
/// of `post` is exactly `value`; otherwise `post` keeps the counter of `pre`.
pub open spec fn replace_step128(
    pre: NumIdKind128,
    post: NumIdKind128,
    value: u128,
    replaced: bool,
) -> bool {
    &&& replaced == (value > pre.current())
    &&& post.initial() == pre.initial()
    &&& post.current() == (if replaced { value } else { pre.current() })
}

impl NumId128 {
    /// Auto-mint: raise the kind's counter by one and return an identifier
    /// wrapping the new counter value.
    ///
    /// Minting at the maximum representable counter value is excluded by
    /// precondition rather than wrapped or saturated, so a minted value is
    /// always fresh.
    pub fn new(kind: &mut NumIdKind128) -> (id: NumId128)
        requires
            old(kind).current() < u128::MAX,
        ensures
            mint_step128(*old(kind), *final(kind), id),
    {
        kind.current_value = kind.current_value + 1;
        NumId128 { value: kind.current_value }
    }

    /// The wrapped value of the identifier.
    pub fn value(self) -> (v: u128)
        ensures
            v == self@,
    {
        self.value
    }

    /// The kind's counter: the value of the last identifier minted, or the
    /// initial value if none has been minted yet.
    pub fn current_value(kind: &NumIdKind128) -> (v: u128)
        ensures
            v == kind.current(),
    {
        kind.current_value
    }

    /// The initial value fixed when the kind was declared.
    pub fn initial_value(kind: &NumIdKind128) -> (v: u128)
        ensures
            v == kind.initial(),
    {
        kind.initial_value
    }

    /// Replace the kind's counter by `value` if `value` is strictly greater,
    /// and report whether the counter was modified.
    ///
    /// This is the sole way to reconcile an externally observed high-water
    /// mark: raising the counter past every value already issued elsewhere
    /// keeps future auto-mints from colliding with them. The strict comparison
    /// makes reapplying the same candidate a no-op that returns `false`.
    pub fn replace_current_value(kind: &mut NumIdKind128, value: u128) -> (replaced: bool)
        ensures
            replace_step128(*old(kind), *final(kind), value, replaced),
    {
        let cond = value > kind.current_value;
        if cond {
            kind.current_value = value;
        }
        cond
    }

    /// Return `Some` identifier wrapping `value` after raising the kind's
    /// counter to `value`, exactly when `replace_current_value` would have
    /// modified the counter; return `None` and leave the counter unchanged
    /// otherwise.
    pub fn create_maybe(kind: &mut NumIdKind128, value: u128) -> (r: Option<NumId128>)
        ensures
            replace_step128(*old(kind), *final(kind), value, r is Some),
            r matches Some(id) ==> id@ == value,
    {
        if NumId128::replace_current_value(kind, value) {
            Some(NumId128 { value })
        } else {
            None
        }
    }

    /// Construct an identifier with an explicit value in the reserved range,
    /// without touching the kind's counter.
    ///
    /// The value must lie at or below the initial value: that range is never
    /// produced by auto-mint, so a well-known identifier seeded here can never
    /// collide with an allocator-issued one.
    pub fn create_lower(kind: &NumIdKind128, value: u128) -> (id: NumId128)
        requires
            value <= kind.initial(),
        ensures
            id@ == value,
    {
        NumId128 { value }
    }

    /// Equivalent to [`create_lower`](Self::create_lower), kept as a distinct
    /// name for call sites that seed compile-time-known identifiers.
    pub fn const_create_lower(kind: &NumIdKind128, value: u128) -> (id: NumId128)
        requires
            value <= kind.initial(),
        ensures
            id@ == value,
    {
        NumId128::create_lower(kind, value)
    }

    /// Checked form of [`create_lower`](Self::create_lower): construct an
    /// identifier wrapping `value` when `value` lies in the reserved range,
    /// and report a [`NumIdError::PreconditionViolation`] otherwise. The
    /// kind's counter is never touched.
    pub fn try_create_lower(kind: &NumIdKind128, value: u128) -> (r: Result<
        NumId128,
        NumIdError,
    >)
        ensures
            r is Ok <==> value <= kind.initial(),
            r matches Ok(id) ==> id@ == value,
            r is Err ==> r == Err::<NumId128, NumIdError>(NumIdError::PreconditionViolation),
    {
        if value <= kind.initial_value {
            Ok(NumId128 { value })
        } else {
            Err(NumIdError::PreconditionViolation)
        }
    }

    /// Re-mint or keep: if this identifier lies strictly above the kind's
    /// initial value (so it came out of the live numbering space), return a
    /// freshly minted identifier and raise the kind's counter; if it lies in
    /// the reserved range, return an unchanged copy and leave the kind alone.
    pub fn reproduce(self, kind: &mut NumIdKind128) -> (r: NumId128)
        requires
            self@ > old(kind).initial() ==> old(kind).current() < u128::MAX,
        ensures
            self@ <= old(kind).initial() ==> r == self && *final(kind) == *old(kind),
            self@ > old(kind).initial() ==> mint_step128(*old(kind), *final(kind), r),
    {
        if self.value > kind.initial_value {
            NumId128::new(kind)
        } else {
            self
        }
    }
}

} // verus!
