//! The shared-backend policy's slot: a holder for at most one backend
//! connection, taken atomically and exactly once. The one transition out of
//! `Ready` is irreversible — the shared connection is a strictly single-use
//! hand-off, not a reusable pool; once consumed the slot stays `InUse` and
//! every further acquisition is rejected.

use vstd::prelude::*;

verus! {

/// A token naming one backend stream connection. The surrounding process
/// keeps the actual socket and maps it to this token; the library's logic
/// reads only the token.
#[derive(Clone, Copy, PartialEq, Eq, Structural, Debug)]
pub struct BackendConn {
    pub id: u64,
}

/// The shared backend slot: either the one connection is still available
/// (`Ready`) or it has been handed to a session (`InUse`).
#[derive(Clone, Copy, PartialEq, Eq, Structural, Debug)]
pub enum BackendSlot {
    Ready { conn: BackendConn },
    InUse,
}

/// Whether an acquisition attempt that observes `pre` wins the slot.
pub open spec fn acquire_wins(pre: BackendSlot) -> bool {
    pre is Ready
}

/// The slot state an acquisition attempt leaves behind: always `InUse`,
/// whatever it observed — there is no transition back to `Ready`.
pub open spec fn acquire_step(pre: BackendSlot) -> BackendSlot {
    BackendSlot::InUse
}

impl BackendSlot {
    /// A slot holding a connection that no session has taken yet.
    pub fn ready(conn: BackendConn) -> (s: BackendSlot)
        ensures
            s == (BackendSlot::Ready { conn }),
    {
        BackendSlot::Ready { conn }
    }

    /// The atomic check-and-take of the shared connection. The caller must
    /// hold this call under the lock that guards the slot, so that the check
    /// and the transition are one atomic step. If the slot is `Ready` the
    /// caller wins the connection and the slot becomes `InUse`; if it is
    /// `InUse` the attempt is rejected at once, without waiting.
    pub fn acquire(&mut self) -> (r: Option<BackendConn>)
        ensures
            *final(self) == acquire_step(*old(self)),
            r is Some <==> acquire_wins(*old(self)),
            (*old(self)) matches BackendSlot::Ready { conn } ==> r == Some(conn),
    {
        match *self {
            BackendSlot::Ready { conn } => {
                *self = BackendSlot::InUse;
                Some(conn)
            },
            BackendSlot::InUse => None,
        }
    }

    /// Whether the slot still holds its connection.
    pub fn is_ready(&self) -> (r: bool)
        ensures
            r == (*self is Ready),
    {
        match *self {
            BackendSlot::Ready { .. } => true,
            BackendSlot::InUse => false,
        }
    }
}

/// Exactly one of a series of serialized acquisition attempts against a slot
/// that starts `Ready` wins it. `observed[k]` is the slot state the `k`-th
/// attempt observes under the lock; each attempt leaves `acquire_step` of
/// what it observed for the next. The first attempt wins; every later
/// attempt observes `InUse` and is rejected — in particular, after the
/// winning session completes, a further attempt still observes `InUse`:
/// there is no silent reuse.
pub proof fn lemma_exactly_one_acquisition_wins(observed: Seq<BackendSlot>)
    requires
        observed.len() >= 1,
        observed[0] is Ready,
        forall|k: int| 1 <= k < observed.len() ==> #[trigger] observed[k] == acquire_step(observed[k - 1]),
    ensures
        acquire_wins(observed[0]),
        forall|k: int| 1 <= k < observed.len() ==> !acquire_wins(#[trigger] observed[k]),
{
    assert forall|k: int| 1 <= k < observed.len() implies !acquire_wins(observed[k]) by {
        assert(observed[k] == acquire_step(observed[k - 1]));
    }
}

} // verus!
