//! Session gateway between a browser terminal and a remote shell.
//!
//! The library holds the two per-connection state machines, the message
//! protocol between them and the error type. Each state machine is a
//! transition function from a state and an event to the next state and an
//! action; the runtime around the library performs the actions (network I/O,
//! frame sending) and feeds the outcomes back as events.

mod configuration;
mod error;
mod front;
pub mod laws;
mod messages;
mod session;

pub use configuration::{Setting, DEFAULT_LISTEN_ADDR, DEFAULT_LISTEN_PORT};
pub use error::SCError;
pub use front::{encode_output, FrontAction, FrontEvent, FrontState, WSActor};
pub use messages::{SSHCredential, SSHMessage, SSHMessageResponse};
pub use session::{
    ConnectStage, SSHActor, SessionAction, SessionEvent, SessionState, DEFAULT_COLS, DEFAULT_PIXEL_HEIGHT,
    DEFAULT_PIXEL_WIDTH, DEFAULT_ROWS, TERMINAL_TYPE,
};
