use crate::error::SCError;
use crate::messages::{SSHMessage, SSHMessageResponse};
use vstd::prelude::*;

verus! {

/// Life cycle of the browser-facing side of one connection.
#[derive(Debug, Clone, Copy, PartialEq, Eq)]
pub enum FrontState {
    /// No command has reached the session yet.
    Idle,
    /// A connect request was forwarded and its answer is awaited.
    AwaitingConnect,
    /// The session is ready and output streams to the browser.
    Streaming,
    /// The connection is over.
    Closed,
}

/// What reaches the browser-facing side: a frame from the browser, already
/// decoded where it was a text frame, or an answer from the session.
#[derive(Debug, Clone, PartialEq, Eq)]
pub enum FrontEvent {
    /// A ping frame with its payload.
    Ping(Vec<u8>),
    /// A binary frame.
    Binary(Vec<u8>),
    /// A text frame that decoded to a command.
    Message(SSHMessage),
    /// A text frame that did not decode to a command.
    Malformed,
    /// The session's answer to a forwarded command.
    Reply(SSHMessageResponse),
    /// The browser transport closed.
    TransportClosed,
}

/// What the runtime is asked to do on the browser side.
#[derive(Debug, Clone, PartialEq, Eq)]
pub enum FrontAction {
    /// Answer a ping with a pong carrying the same payload.
    Pong(Vec<u8>),
    /// Send a binary frame.
    SendBinary(Vec<u8>),
    /// Hand a command to the session's mailbox.
    Forward(SSHMessage),
    /// Close the browser connection and tear the session down.
    Shutdown,
    /// Nothing to do.
    Nothing,
}

/// The state machine that faces the browser.
#[derive(Debug, Clone, PartialEq, Eq)]
pub struct WSActor {
    pub state: FrontState,
}

/// The transition of the browser-facing side on one event.
pub open spec fn front_next(s: FrontState, e: FrontEvent) -> (FrontState, FrontAction) {
    if s is Closed {
        (s, FrontAction::Nothing)
    } else {
        match e {
            FrontEvent::Ping(payload) => (s, FrontAction::Pong(payload)),
            FrontEvent::Binary(data) => (s, FrontAction::SendBinary(data)),
            FrontEvent::Message(m) => match m {
                SSHMessage::Connect { .. } => (
                    if s is Idle {
                        FrontState::AwaitingConnect
                    } else {
                        s
                    },
                    FrontAction::Forward(m),
                ),
                SSHMessage::ShellOutput(_) => (s, FrontAction::Nothing),
                _ => (s, FrontAction::Forward(m)),
            },
            FrontEvent::Malformed => (FrontState::Closed, FrontAction::Shutdown),
            FrontEvent::Reply(r) => match r {
                SSHMessageResponse::Connected => (
                    if s is AwaitingConnect {
                        FrontState::Streaming
                    } else {
                        s
                    },
                    FrontAction::Nothing,
                ),
                SSHMessageResponse::NoOp => (s, FrontAction::Nothing),
                _ => (FrontState::Closed, FrontAction::Shutdown),
            },
            FrontEvent::TransportClosed => (FrontState::Closed, FrontAction::Shutdown),
        }
    }
}

/// The state and the actions after a sequence of events.
pub open spec fn front_run(s: FrontState, events: Seq<FrontEvent>) -> (FrontState, Seq<FrontAction>)
    decreases events.len(),
{
    if events.len() == 0 {
        (s, Seq::empty())
    } else {
        let (before, acts) = front_run(s, events.drop_last());
        let (after, a) = front_next(before, events.last());
        (after, acts.push(a))
    }
}

/// The text that a byte string decodes to as UTF-8, or `None` where it is not
/// valid UTF-8.
pub uninterp spec fn utf8_text(b: Seq<u8>) -> Option<Seq<char>>;

/// True of a byte string made of ASCII bytes only.
pub open spec fn is_ascii(b: Seq<u8>) -> bool {
    forall|i: int| 0 <= i < b.len() ==> b[i] < 0x80
}

/// The characters that ASCII bytes stand for, one for each byte.
pub open spec fn ascii_chars(b: Seq<u8>) -> Seq<char> {
    b.map_values(|c: u8| c as char)
}

/// Relies on bytestring's `TryFrom<Vec<u8>> for ByteString`, which accepts a
/// buffer exactly when it is valid UTF-8 and takes an ASCII buffer as it stands,
/// and on `From<ByteString> for String`, which keeps the text.
#[verifier::external_body]
fn text_of_bytes(data: Vec<u8>) -> (r: Option<String>)
    ensures
        r is None ==> utf8_text(data@) is None,
        r matches Some(s) ==> utf8_text(data@) == Some(s@),
        is_ascii(data@) ==> r is Some,
        r matches Some(s) ==> (is_ascii(data@) ==> s@ == ascii_chars(data@)),
{
    match bytestring::ByteString::try_from(data) {
        Ok(text) => Some(String::from(text)),
        Err(_) => None,
    }
}

/// Encodes remote shell output for a text frame: the output's UTF-8 text, or
/// `ByteParseError` where the bytes are not valid UTF-8.
pub fn encode_output(data: Vec<u8>) -> (r: Result<String, SCError>)
    ensures
        match utf8_text(data@) {
            Some(t) => r matches Ok(s) && s@ == t,
            None => r == Err::<String, SCError>(SCError::ByteParseError),
        },
        is_ascii(data@) ==> (r matches Ok(s) && s@ == ascii_chars(data@)),
{
    match text_of_bytes(data) {
        Some(text) => Ok(text),
        None => Err(SCError::ByteParseError),
    }
}

impl WSActor {
    /// A fresh connection on which nothing has happened yet.
    pub fn new() -> (r: WSActor)
        ensures
            r.state == FrontState::Idle,
    {
        WSActor { state: FrontState::Idle }
    }

    /// Processes one event: a frame from the browser or an answer from the
    /// session. The result is the one action that the runtime performs next.
    pub fn handle(&mut self, event: FrontEvent) -> (r: FrontAction)
        ensures
            (final(self).state, r) == front_next(old(self).state, event),
    {
        if let FrontState::Closed = self.state {
            return FrontAction::Nothing;
        }
        match event {
            FrontEvent::Ping(payload) => FrontAction::Pong(payload),
            FrontEvent::Binary(data) => FrontAction::SendBinary(data),
            FrontEvent::Message(m) => match m {
                SSHMessage::Connect { .. } => {
                    if let FrontState::Idle = self.state {
                        self.state = FrontState::AwaitingConnect;
                    }
                    FrontAction::Forward(m)
                },
                SSHMessage::ShellOutput(_) => FrontAction::Nothing,
                _ => FrontAction::Forward(m),
            },
            FrontEvent::Malformed => {
                self.state = FrontState::Closed;
                FrontAction::Shutdown
            },
            FrontEvent::Reply(r) => match r {
                SSHMessageResponse::Connected => {
                    if let FrontState::AwaitingConnect = self.state {
                        self.state = FrontState::Streaming;
                    }
                    FrontAction::Nothing
                },
                SSHMessageResponse::NoOp => FrontAction::Nothing,
                _ => {
                    self.state = FrontState::Closed;
                    FrontAction::Shutdown
                },
            },
            FrontEvent::TransportClosed => {
                self.state = FrontState::Closed;
                FrontAction::Shutdown
            },
        }
    }
}

} // verus!
