//! Numerical identifier kinds with monotonic allocation.
//!
//! A [`NumIdKind`] is a declared identifier kind: it owns a monotonic counter
//! together with the fixed initial value chosen at declaration time. The
//! operations on [`NumId`] mint strongly typed identifiers against that kind
//! so that values never collide: auto-minted identifiers always lie strictly
//! above the initial value, while the range at or below the initial value is
//! reserved for well-known identifiers supplied by the caller.

use vstd::prelude::*;

pub mod laws;
pub mod wide;

pub use wide::{mint_step128, replace_step128, NumId128, NumIdKind128};

verus! {

/// A numerical identifier minted against a [`NumIdKind`].
///
/// An identifier is an immutable value type wrapping exactly one `u64`;
/// equality, ordering and hashing are those of the wrapped value. Copying an
/// identifier never touches the kind's counter.
#[derive(Eq, PartialEq, Ord, PartialOrd, Clone, Copy, Hash, Debug, Structural)]
pub struct NumId {
    value: u64,
}

/// The one way an operation on a kind can fail.
#[derive(Eq, PartialEq, Clone, Copy, Hash, Debug, Structural)]
pub enum NumIdError {
    /// A caller asked for an explicit identifier above the reserved range,
    /// which could collide with a value the kind mints on its own.
    PreconditionViolation,
}

/// A declared identifier kind: the fixed initial value together with the
/// kind's monotonic counter (its high-water mark).
///
/// Each declared kind is fully independent of every other kind. The counter
/// never decreases; it starts at the initial value and is raised by minting
/// or by reconciling an externally observed high-water mark.
pub struct NumIdKind {
    initial_value: u64,
    current_value: u64,
}

impl View for NumId {
    type V = u64;

    /// The wrapped value of the identifier.
    closed spec fn view(&self) -> u64 {
        self.value
    }
}

impl NumIdKind {
    /// The initial value fixed when the kind was declared.
    pub closed spec fn initial(self) -> u64 {
        self.initial_value
    }

    /// The counter: the value of the last identifier minted, or the initial
    /// value if none has been minted yet.
    pub closed spec fn current(self) -> u64 {
        self.current_value
    }

    /// Every kind keeps its counter at or above its initial value.
    pub open spec fn wf(self) -> bool {
        self.initial() <= self.current()
    }

    /// Declare a new identifier kind whose counter starts at `initial_value`.
    pub fn declare(initial_value: u64) -> (kind: NumIdKind)
        ensures
            kind.initial() == initial_value,
            kind.current() == initial_value,
            kind.wf(),
    {
        NumIdKind { initial_value, current_value: initial_value }
    }
}

/// One auto-mint: `post` is `pre` with its counter raised by exactly one, and
/// `id` wraps the raised counter value.
pub open spec fn mint_step(pre: NumIdKind, post: NumIdKind, id: NumId) -> bool {
    &&& post.initial() == pre.initial()
    &&& post.current() == pre.current() + 1
    &&& id@ == post.current()
}

/// One attempt to raise the high-water mark to `value`: it succeeds exactly
/// when `value` lies strictly above the counter of `pre`, and then the counter
/// of `post` is exactly `value`; otherwise `post` keeps the counter of `pre`.
pub open spec fn replace_step(pre: NumIdKind, post: NumIdKind, value: u64, replaced: bool) -> bool {
    &&& replaced == (value > pre.current())
    &&& post.initial() == pre.initial()
    &&& post.current() == (if replaced { value } else { pre.current() })
}

impl NumId {
    /// Auto-mint: raise the kind's counter by one and return an identifier
    /// wrapping the new counter value.
    ///
    /// Minting at the maximum representable counter value is excluded by
    /// precondition rather than wrapped or saturated, so a minted value is
    /// always fresh.
    pub fn new(kind: &mut NumIdKind) -> (id: NumId)
        requires
            old(kind).current() < u64::MAX,
        ensures
            mint_step(*old(kind), *final(kind), id),
    {
        kind.current_value = kind.current_value + 1;
        NumId { value: kind.current_value }
    }

    /// The wrapped value of the identifier.
    pub fn value(self) -> (v: u64)
        ensures
            v == self@,
    {
        self.value
    }

    /// The kind's counter: the value of the last identifier minted, or the
    /// initial value if none has been minted yet.
    pub fn current_value(kind: &NumIdKind) -> (v: u64)
        ensures
            v == kind.current(),
    {
        kind.current_value
    }

    /// The initial value fixed when the kind was declared.
    pub fn initial_value(kind: &NumIdKind) -> (v: u64)
        ensures
            v == kind.initial(),
    {
        kind.initial_value
    }

    /// Replace the kind's counter by `value` if `value` is strictly greater,
    /// and report whether the counter was modified.
    ///
    /// This is the sole way to reconcile an externally observed high-water
    /// mark: raising the counter past every value already issued elsewhere
    /// keeps future auto-mints from colliding with them. The strict comparison
    /// makes reapplying the same candidate a no-op that returns `false`.
    pub fn replace_current_value(kind: &mut NumIdKind, value: u64) -> (replaced: bool)
        ensures
            replace_step(*old(kind), *final(kind), value, replaced),
    {
        let cond = value > kind.current_value;
        if cond {
            kind.current_value = value;
        }
        cond
    }

    /// Return `Some` identifier wrapping `value` after raising the kind's
    /// counter to `value`, exactly when `replace_current_value` would have
    /// modified the counter; return `None` and leave the counter unchanged
    /// otherwise.
    pub fn create_maybe(kind: &mut NumIdKind, value: u64) -> (r: Option<NumId>)
        ensures
            replace_step(*old(kind), *final(kind), value, r is Some),
            r matches Some(id) ==> id@ == value,
    {
        if NumId::replace_current_value(kind, value) {
            Some(NumId { value })
        } else {
            None
        }
    }

    /// Construct an identifier with an explicit value in the reserved range,
    /// without touching the kind's counter.
    ///
    /// The value must lie at or below the initial value: that range is never
    /// produced by auto-mint, so a well-known identifier seeded here can never
    /// collide with an allocator-issued one.
    pub fn create_lower(kind: &NumIdKind, value: u64) -> (id: NumId)
        requires
            value <= kind.initial(),
        ensures
            id@ == value,
    {
        NumId { value }
    }

    /// Equivalent to [`create_lower`](Self::create_lower), kept as a distinct
    /// name for call sites that seed compile-time-known identifiers.
    pub fn const_create_lower(kind: &NumIdKind, value: u64) -> (id: NumId)
        requires
            value <= kind.initial(),
        ensures
            id@ == value,
    {
        NumId::create_lower(kind, value)
    }

    /// Checked form of [`create_lower`](Self::create_lower): construct an
    /// identifier wrapping `value` when `value` lies in the reserved range,
    /// and report a [`NumIdError::PreconditionViolation`] otherwise. The
    /// kind's counter is never touched.
    pub fn try_create_lower(kind: &NumIdKind, value: u64) -> (r: Result<NumId, NumIdError>)
        ensures
            r is Ok <==> value <= kind.initial(),
            r matches Ok(id) ==> id@ == value,
            r is Err ==> r == Err::<NumId, NumIdError>(NumIdError::PreconditionViolation),
    {
        if value <= kind.initial_value {
            Ok(NumId { value })
        } else {
            Err(NumIdError::PreconditionViolation)
        }
    }

    /// Re-mint or keep: if this identifier lies strictly above the kind's
    /// initial value (so it came out of the live numbering space), return a
    /// freshly minted identifier and raise the kind's counter; if it lies in
    /// the reserved range, return an unchanged copy and leave the kind alone.
    pub fn reproduce(self, kind: &mut NumIdKind) -> (r: NumId)
        requires
            self@ > old(kind).initial() ==> old(kind).current() < u64::MAX,
        ensures
            self@ <= old(kind).initial() ==> r == self && *final(kind) == *old(kind),
            self@ > old(kind).initial() ==> mint_step(*old(kind), *final(kind), r),
    {
        if self.value > kind.initial_value {
            NumId::new(kind)
        } else {
            self
        }
    }
}

} // verus!
