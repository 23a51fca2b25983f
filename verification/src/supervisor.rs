//! The connection supervisor's decision state: for each accepted client it
//! decides — under the configured backend policy — whether to dial a fresh
//! backend connection, to hand out the shared one, or to reject the client,
//! and it names the record a finished session leaves for the logging layer.
//! The accept loop itself, the sockets and the per-session threads live in
//! the surrounding process; a session failure there never reaches this
//! state, so one failed session cannot stop the accept loop.

use vstd::prelude::*;

use crate::event::{ClientAddr, Event, RejectReason};
use crate::relay::RelayOutcome;
use crate::slot::{acquire_step, acquire_wins, BackendConn, BackendSlot};

verus! {

/// What the supervisor decides for one accepted client connection.
#[derive(Clone, Copy, PartialEq, Eq, Structural, Debug)]
pub enum AcceptAction {
    /// Dial-per-client mode: dial a fresh connection toward the backend and
    /// report how it went through `on_dial_result`.
    RequestDial,
    /// Start a relay session over `conn`, as its exclusive owner.
    Spawn { conn: BackendConn },
    /// Close the client connection at once, without relaying any bytes.
    Reject { reason: RejectReason },
}

/// The accept loop's decision state, one of the two backend policies.
#[derive(Clone, Copy, PartialEq, Eq, Structural, Debug)]
pub enum Supervisor {
    /// Dial-per-client (default): every accepted client gets a fresh,
    /// private backend connection, discarded at session end.
    DialPerClient { next_conn: u64 },
    /// Single-shared-backend: one pre-established connection sits in a
    /// slot and is handed out exactly once; after that every client is
    /// rejected.
    SingleShared { slot: BackendSlot },
}

impl Supervisor {
    /// A supervisor under the dial-per-client policy.
    pub fn dial_per_client() -> (s: Supervisor)
        ensures
            s == (Supervisor::DialPerClient { next_conn: 0u64 }),
    {
        Supervisor::DialPerClient { next_conn: 0 }
    }

    /// A supervisor under the single-shared-backend policy, holding the one
    /// pre-established connection, still unused.
    pub fn single_shared(conn: BackendConn) -> (s: Supervisor)
        ensures
            s == (Supervisor::SingleShared { slot: BackendSlot::Ready { conn } }),
    {
        Supervisor::SingleShared { slot: BackendSlot::Ready { conn } }
    }

    /// The counter naming the next connection a successful dial yields.
    pub open spec fn conn_counter(self) -> u64 {
        match self {
            Supervisor::DialPerClient { next_conn } => next_conn,
            Supervisor::SingleShared { .. } => 0,
        }
    }

    /// The connection a successful dial at this state is given.
    pub open spec fn fresh_conn(self) -> BackendConn {
        BackendConn { id: self.conn_counter() }
    }

    /// Decide for one accepted client. Under dial-per-client the state is
    /// untouched and the caller is told to dial — acceptance never blocks
    /// on another session. Under single-shared-backend the slot is checked
    /// and taken in one atomic step: the client that finds it `Ready` wins
    /// the connection, every other client is rejected at once, and the slot
    /// never returns to `Ready`.
    pub fn on_accepted(&mut self) -> (a: AcceptAction)
        ensures
            *old(self) is DialPerClient ==> a is RequestDial && *final(self) == *old(self),
            (*old(self)) matches Supervisor::SingleShared { slot } ==> {
                &&& *final(self) == (Supervisor::SingleShared { slot: acquire_step(slot) })
                &&& (acquire_wins(slot) ==> (slot matches BackendSlot::Ready { conn } && a == (
                AcceptAction::Spawn { conn })))
                &&& (!acquire_wins(slot) ==> a == (AcceptAction::Reject {
                    reason: RejectReason::SlotUnavailable,
                }))
            },
    {
        match *self {
            Supervisor::DialPerClient { .. } => AcceptAction::RequestDial,
            Supervisor::SingleShared { slot } => {
                let mut s = slot;
                let taken = s.acquire();
                *self = Supervisor::SingleShared { slot: s };
                match taken {
                    Some(conn) => AcceptAction::Spawn { conn },
                    None => AcceptAction::Reject { reason: RejectReason::SlotUnavailable },
                }
            },
        }
    }

    /// Report how the dial that a `RequestDial` asked for went. A
    /// successful dial spawns a session over a connection no earlier
    /// session was given — the counter moves past it — and a failed dial
    /// rejects the client, unchanged state, no retry: retry policy belongs
    /// to a caller, not to this core.
    pub fn on_dial_result(&mut self, ok: bool) -> (a: AcceptAction)
        requires
            *old(self) is DialPerClient,
            old(self).conn_counter() < u64::MAX,
        ensures
            *final(self) is DialPerClient,
            final(self).conn_counter() >= old(self).conn_counter(),
            ok ==> a == (AcceptAction::Spawn { conn: old(self).fresh_conn() })
                && final(self).conn_counter() == old(self).conn_counter() + 1,
            !ok ==> a == (AcceptAction::Reject { reason: RejectReason::DialFailed }) && *final(self)
                == *old(self),
    {
        match *self {
            Supervisor::DialPerClient { next_conn } => {
                if ok {
                    *self = Supervisor::DialPerClient { next_conn: next_conn + 1 };
                    AcceptAction::Spawn { conn: BackendConn { id: next_conn } }
                } else {
                    AcceptAction::Reject { reason: RejectReason::DialFailed }
                }
            },
            Supervisor::SingleShared { .. } => {
                AcceptAction::Reject { reason: RejectReason::DialFailed }
            },
        }
    }
}

/// The record a finished session leaves: `Closed` with both byte counts on
/// clean termination, `Error` with the failure classification otherwise.
/// Either way the bytes moved before termination are the ones counted.
pub fn completion_event(client: ClientAddr, outcome: &RelayOutcome) -> (e: Event)
    ensures
        outcome.error is None ==> e == (Event::Closed {
            client,
            bytes_up: outcome.bytes_up,
            bytes_down: outcome.bytes_down,
        }),
        (outcome.error) matches Some(err) ==> e == (Event::Error { client, error: err }),
{
    match outcome.error {
        None => Event::Closed {
            client,
            bytes_up: outcome.bytes_up,
            bytes_down: outcome.bytes_down,
        },
        Some(err) => Event::Error { client, error: err },
    }
}

/// Dial-per-client isolation: sessions spawned at different counter states
/// hold distinct backend connections. Each successful dial moves the
/// counter past the connection it granted, so no two sessions ever share
/// one, and closing one session's connections cannot touch another's.
pub proof fn lemma_dialed_connections_distinct(s: Supervisor, t: Supervisor)
    requires
        s.conn_counter() != t.conn_counter(),
    ensures
        s.fresh_conn() != t.fresh_conn(),
{
}

} // verus!
