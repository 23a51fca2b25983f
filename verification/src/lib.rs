//! Core of a TCP-level relay: the connection lifecycle and full-duplex
//! relay engine. A client connection and a backend connection are paired,
//! bytes flow in both directions until either side closes, closure is
//! propagated to the other side, and concurrent clients are handled either
//! by dialing a fresh backend connection per client or by handing out one
//! shared backend connection exactly once.
//!
//! The actual sockets, threads and logging live outside this crate; the
//! library holds the decisions and the byte-accounting, each with its
//! contract: the duplex relay engine ([`relay`]), the accept-loop decision
//! state ([`supervisor`]), the shared backend slot and its irreversible
//! acquisition ([`slot`]), endpoints ([`endpoint`]) and the observability
//! event vocabulary ([`event`]).

pub mod endpoint;
pub mod event;
pub mod relay;
pub mod slot;
pub mod supervisor;
