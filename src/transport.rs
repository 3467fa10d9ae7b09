use vstd::prelude::*;
use vstd::string::StringExecFns;

verus! {

/// The two interchangeable transport kinds.
#[derive(Clone, Copy, Debug, PartialEq, Eq, Structural)]
pub enum Transport {
    /// Byte stream; a message ends where the sender half-closes its writes.
    Tcp,
    /// Pair socket of atomic messages; boundaries are kept by the transport.
    Nng,
}

/// The four choices that both ends of a transfer are given: the transport of
/// each direction, and where each side listens.
pub struct TransferConfig {
    /// Transport of the upload, from client to server.
    pub client_transport: Transport,
    /// Transport of the reply, from server to client.
    pub server_transport: Transport,
    /// Where the client listens for the reply (`host:port`).
    pub client_recv_addr: String,
    /// Where the server listens for the upload (`host:port`).
    pub server_recv_addr: String,
}

/// The URL of the message transport for a `host:port` address.
pub open spec fn spec_nng_url(address: Seq<char>) -> Seq<char> {
    "tcp://"@ + address
}

/// Builds the URL under which the message transport listens or dials.
pub fn nng_url(address: &str) -> (r: String)
    ensures
        r@ == spec_nng_url(address@),
{
    let prefix = String::from_str("tcp://");
    proof {
        reveal_strlit("tcp://");
    }
    prefix.concat(address)
}

} // verus!
