use vstd::prelude::*;

verus! {

/// Errors of the gateway.
#[derive(Debug, Clone, PartialEq, Eq)]
pub enum SCError {
    /// A failure reported by the remote-shell transport, with its description.
    SSHError(String),
    /// The remote host rejected the supplied credentials.
    PermissionDenied,
    /// Shell output that is not valid UTF-8 and cannot travel in a text frame.
    ByteParseError,
    /// Start-up configuration could not be read, with its description.
    Config(String),
    /// A request that the state machine does not honour in its current state.
    Error,
    /// A message could not be delivered between the two state machines.
    MailBoxError,
}

} // verus!
