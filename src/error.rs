use vstd::prelude::*;

verus! {

/// A failure reported by a credential source while minting a token.
#[derive(Clone, Debug, PartialEq, Eq)]
pub struct CredentialError {
    pub reason: String,
}

/// The operations of the transport contract that a protocol may leave
/// unsupported.
#[derive(Clone, Copy, Debug, PartialEq, Eq, Structural)]
pub enum Operation {
    SendPropertyUpdate,
    RequestTwinProperties,
    RespondToDirectMethod,
    Ping,
    GetReceiver,
}

/// Every failure that a transport operation reports to its caller.
#[derive(Clone, Debug, PartialEq, Eq)]
pub enum TransportError {
    /// The credential source could not mint a token.
    Credential(CredentialError),
    /// The system clock could not be read as a timestamp.
    ClockUnavailable,
    /// A fresh token's expiration instant does not fit in a timestamp.
    ExpirationOutOfRange,
    /// The operation is not provided by this protocol.
    Unsupported(Operation),
    /// The hub answered with a status code outside 2xx.
    Status(u16),
    /// The network or the HTTP client failed while sending.
    Network(String),
}

} // verus!
