//! The connection manager behind the HTTP trigger's pool of NATS connections.

use vstd::prelude::*;

verus! {

/// Connects to one NATS server, by its address, for a connection pool.
pub struct NatsManager {
    addr: String,
}

/// A pooled connection that no longer answers.
#[derive(PartialEq, Eq, Structural, Clone, Copy, Debug)]
pub struct BrokenConnection;

impl NatsManager {
    /// The server address that new connections are made to.
    pub closed spec fn address(&self) -> Seq<char> {
        self.addr@
    }

    /// A manager for connections to the server at `addr`.
    pub fn new(addr: &str) -> (manager: Self)
        ensures
            manager.address() == addr@,
    {
        Self { addr: addr.to_owned() }
    }

    /// The server address that new connections are made to.
    pub fn addr(&self) -> (addr: &str)
        ensures
            addr@ == self.address(),
    {
        self.addr.as_str()
    }

    /// Whether a pooled connection may be handed out again, given whether
    /// flushing it succeeded: it may exactly when the flush did.
    pub fn check_flush(&self, flushed: bool) -> (r: Result<(), BrokenConnection>)
        ensures
            r is Ok <==> flushed,
    {
        if flushed {
            Ok(())
        } else {
            Err(BrokenConnection)
        }
    }

    /// Whether a connection is known broken without asking it: never, so the
    /// pool checks connections by flushing them.
    pub fn has_broken(&self) -> (broken: bool)
        ensures
            !broken,
    {
        false
    }
}

} // verus!
