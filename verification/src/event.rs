//! The observability vocabulary: which peer and direction a fact concerns,
//! how a failed session is classified, why a client was turned away, and
//! the structured records the relay emits for the logging layer.

use vstd::prelude::*;

use crate::endpoint::Endpoint;

verus! {

/// Which peer of a relay session a fact concerns.
#[derive(Clone, Copy, PartialEq, Eq, Structural, Debug)]
pub enum Side {
    Client,
    Backend,
}

/// One copy direction inside a relay session: `Up` carries bytes from the
/// client to the backend, `Down` from the backend to the client.
#[derive(Clone, Copy, PartialEq, Eq, Structural, Debug)]
pub enum Direction {
    Up,
    Down,
}

/// The other copy direction.
pub open spec fn opposite(d: Direction) -> Direction {
    match d {
        Direction::Up => Direction::Down,
        Direction::Down => Direction::Up,
    }
}

/// The side a direction reads from.
pub open spec fn source_side(d: Direction) -> Side {
    match d {
        Direction::Up => Side::Client,
        Direction::Down => Side::Backend,
    }
}

/// The side a direction writes to.
pub open spec fn dest_side(d: Direction) -> Side {
    match d {
        Direction::Up => Side::Backend,
        Direction::Down => Side::Client,
    }
}

/// Why a relay session ended abnormally: a read failed, a write failed, or
/// the shutdown issued at teardown failed.
#[derive(Clone, Copy, PartialEq, Eq, Structural, Debug)]
pub enum RelayError {
    /// Reading from `dir`'s source failed.
    Read { dir: Direction },
    /// Writing to `dir`'s destination failed.
    Write { dir: Direction },
    /// Shutting `side`'s connection down at teardown failed.
    Shutdown { side: Side },
}

impl RelayError {
    /// The side the failure occurred on: a read fails at the direction's
    /// source, a write at its destination.
    pub open spec fn spec_side(self) -> Side {
        match self {
            RelayError::Read { dir } => source_side(dir),
            RelayError::Write { dir } => dest_side(dir),
            RelayError::Shutdown { side } => side,
        }
    }

    /// The side the failure occurred on.
    pub fn side(&self) -> (s: Side)
        ensures
            s == self.spec_side(),
    {
        match *self {
            RelayError::Read { dir } => match dir {
                Direction::Up => Side::Client,
                Direction::Down => Side::Backend,
            },
            RelayError::Write { dir } => match dir {
                Direction::Up => Side::Backend,
                Direction::Down => Side::Client,
            },
            RelayError::Shutdown { side } => side,
        }
    }
}

/// Why a client connection was closed without a relay session.
#[derive(Clone, Copy, PartialEq, Eq, Structural, Debug)]
pub enum RejectReason {
    /// Dial-per-client mode: the dial toward the backend failed.
    DialFailed,
    /// Shared-backend mode: the one shared connection is already in use.
    SlotUnavailable,
}

/// The address of an accepted client connection, as plain values: four
/// address octets and a port.
#[derive(Clone, Copy, PartialEq, Eq, Structural, Debug)]
pub struct ClientAddr {
    pub a: u8,
    pub b: u8,
    pub c: u8,
    pub d: u8,
    pub port: u16,
}

/// One structured record for the logging layer. Only the vocabulary and the
/// data each record carries are part of the contract; formatting is not.
#[derive(Clone, Debug)]
pub enum Event {
    /// The proxy listens on `endpoint`.
    Listening { endpoint: Endpoint },
    /// Shared-backend mode, once: the shared connection to `endpoint` stands.
    ConnectedUpstream { endpoint: Endpoint },
    /// A client connection was accepted.
    Accepted { client: ClientAddr },
    /// A session ended cleanly, with the bytes copied in each direction.
    Closed { client: ClientAddr, bytes_up: u64, bytes_down: u64 },
    /// A client was closed without a session.
    Rejected { client: ClientAddr, reason: RejectReason },
    /// A session ended on a failure.
    Error { client: ClientAddr, error: RelayError },
}

} // verus!
