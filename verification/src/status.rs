use vstd::prelude::*;

verus! {

/// Current status of a client, as the client and its communication thread see it.
#[derive(Debug, PartialEq, Eq, Clone, Copy, Structural)]
pub enum EthosClientStatus {
    /// Client is currently disconnected.
    Disconnected,
    /// Client is currently trying to connect.
    Connecting,
    /// Client is currently connected.
    Connected,
    /// Client is currently disconnecting.
    Disconnecting,
    /// Client thread has ended.
    Ended,
}

} // verus!
