//! Endpoints: already-resolved network addresses, host name and port, as
//! configuration hands them to the supervisor.

use vstd::prelude::*;
use vstd::string::StringExecFns;

verus! {

/// An already-resolved network address: a host name and a port. Immutable
/// once constructed; the supervisor only reads it.
#[derive(Clone, Debug)]
pub struct Endpoint {
    pub host: String,
    pub port: u16,
}

impl Endpoint {
    /// The default listen endpoint, `localhost:8080`.
    pub fn default_listen() -> (e: Endpoint)
        ensures
            e.host@ == "localhost"@,
            e.port == 8080,
    {
        Endpoint { host: String::from_str("localhost"), port: 8080 }
    }

    /// The default backend endpoint, `localhost:8081`.
    pub fn default_backend() -> (e: Endpoint)
        ensures
            e.host@ == "localhost"@,
            e.port == 8081,
    {
        Endpoint { host: String::from_str("localhost"), port: 8081 }
    }
}

} // verus!
