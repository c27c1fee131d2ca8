use crate::error::SCError;
use vstd::prelude::*;

verus! {

/// Host and login of a remote machine.
#[derive(Debug, Clone, PartialEq, Eq)]
pub struct SSHCredential {
    pub host: String,
    pub port: u16,
    pub username: String,
    pub password: String,
}

/// Commands of the wire protocol between the browser and the gateway.
#[derive(Debug, Clone, PartialEq, Eq)]
pub enum SSHMessage {
    /// Open a shell on `host:port`, optionally through a jump host.
    Connect {
        host: String,
        port: u16,
        username: String,
        password: String,
        jump_host: Option<SSHCredential>,
    },
    /// Keystrokes for the remote shell.
    ShellInput(Vec<u8>),
    /// New terminal geometry, in characters and pixels.
    TerminalResize { width: i32, height: i32, pixelwidth: i32, pixelheight: i32 },
    /// Output of the remote shell, travelling towards the browser.
    ShellOutput(Vec<u8>),
}

/// The answer that the session gives to every command it processes.
#[derive(Debug, Clone, PartialEq, Eq)]
pub enum SSHMessageResponse {
    /// The shell is set up and ready for input.
    Connected,
    /// The target host rejected the credentials.
    PermissionDenied,
    /// A transport-level failure, with its cause.
    SSHError(SCError),
    /// The command was accepted; there is nothing to report.
    NoOp,
}

} // verus!
