use crate::error::SCError;
use crate::messages::{SSHCredential, SSHMessage, SSHMessageResponse};
use vstd::prelude::*;

verus! {

/// Terminal type requested for the pseudo-terminal and exported as `TERM`.
pub const TERMINAL_TYPE: &'static str = "xterm";

/// Initial pseudo-terminal width, in characters.
pub const DEFAULT_COLS: u32 = 80;

/// Initial pseudo-terminal height, in characters.
pub const DEFAULT_ROWS: u32 = 24;

/// Initial pseudo-terminal width, in pixels.
pub const DEFAULT_PIXEL_WIDTH: u32 = 640;

/// Initial pseudo-terminal height, in pixels.
pub const DEFAULT_PIXEL_HEIGHT: u32 = 480;

/// Which part of the transport set-up a connecting session waits on.
#[derive(Debug, Clone, Copy, PartialEq, Eq)]
pub enum ConnectStage {
    /// Connecting to the jump host.
    JumpHostTransport,
    /// Authenticating to the jump host.
    JumpHostAuth,
    /// Opening the forwarded connection to the target through the jump host.
    Tunnel,
    /// Connecting to the target directly.
    Direct,
}

/// Life cycle of one remote shell session.
#[derive(Debug, Clone, PartialEq, Eq)]
pub enum SessionState {
    Disconnected,
    Connecting(ConnectStage),
    Authenticating,
    ChannelOpening,
    Ready,
    Closed,
    Failed(SCError),
}

/// What happens to a session: a command from its mailbox, or the outcome of
/// the last action that the runtime performed for it.
#[derive(Debug, Clone, PartialEq, Eq)]
pub enum SessionEvent {
    /// A command from the browser side.
    Command(SSHMessage),
    /// The last requested transport step, write or resize succeeded.
    StepOk,
    /// The last requested authentication was answered.
    AuthResult(bool),
    /// The shell channel is open, with its pseudo-terminal, shell and `TERM` set.
    ChannelOpened(u32),
    /// The last requested step failed at the transport level.
    StepFailed(String),
    /// The remote shell produced output.
    RemoteData(Vec<u8>),
    /// The remote side closed the channel.
    RemoteClosed,
    /// The browser side went away: the session is torn down.
    Teardown,
}

/// What the runtime is asked to do for a session.
#[derive(Debug, Clone, PartialEq, Eq)]
pub enum SessionAction {
    /// Open a transport connection to `host:port` (target or jump host).
    ConnectHost { host: String, port: u16 },
    /// Authenticate with a password on the transport opened last.
    Authenticate { username: String, password: String },
    /// Forward a TCP connection from the jump host to `host:port` and run the
    /// target's transport inside it.
    OpenTunnel { host: String, port: u16 },
    /// Open a session channel, request a pseudo-terminal of the given
    /// geometry and of type `TERMINAL_TYPE`, start a shell and set `TERM`.
    OpenShell { cols: u32, rows: u32, pixel_width: u32, pixel_height: u32 },
    /// Write bytes to the shell channel.
    Write { channel: u32, data: Vec<u8> },
    /// Tell the shell channel of a new window geometry.
    WindowChange { channel: u32, cols: u32, rows: u32, pixel_width: u32, pixel_height: u32 },
    /// Close the shell channel.
    CloseChannel { channel: u32 },
    /// Answer the command being processed.
    Reply(SSHMessageResponse),
    /// Hand remote output to the browser side.
    Forward(Vec<u8>),
    /// Nothing to do.
    Nothing,
}

/// The session state machine that faces the remote shell.
///
/// `channel` is the handle of the single shell channel; `target` and
/// `jump_host` hold credentials only while the connection is being set up.
#[derive(Debug, Clone, PartialEq, Eq)]
pub struct SSHActor {
    pub state: SessionState,
    pub channel: Option<u32>,
    pub target: Option<SSHCredential>,
    pub jump_host: Option<SSHCredential>,
}

/// A terminal dimension as the channel receives it: the two's-complement
/// reinterpretation of the signed value.
pub open spec fn wrap_u32(x: i32) -> u32 {
    if x >= 0 {
        x as u32
    } else {
        (x as int + 0x1_0000_0000) as u32
    }
}

/// True of the states in which the connection is still being set up.
pub open spec fn is_setting_up(s: SessionState) -> bool {
    s is Connecting || s is Authenticating || s is ChannelOpening
}

/// A session that has failed for `reason`, with nothing held.
pub open spec fn failed_session(reason: SCError) -> SSHActor {
    SSHActor { state: SessionState::Failed(reason), channel: None, target: None, jump_host: None }
}

/// A session that has been closed, with nothing held.
pub open spec fn closed_session() -> SSHActor {
    SSHActor { state: SessionState::Closed, channel: None, target: None, jump_host: None }
}

/// The transition on a command.
pub open spec fn command_next(s: SSHActor, m: SSHMessage) -> (SSHActor, SessionAction) {
    match m {
        SSHMessage::Connect { host, port, username, password, jump_host } => {
            if s.state is Disconnected {
                let target = SSHCredential { host, port, username, password };
                match jump_host {
                    Some(j) => (
                        SSHActor {
                            state: SessionState::Connecting(ConnectStage::JumpHostTransport),
                            target: Some(target),
                            jump_host: Some(j),
                            ..s
                        },
                        SessionAction::ConnectHost { host: j.host, port: j.port },
                    ),
                    None => (
                        SSHActor {
                            state: SessionState::Connecting(ConnectStage::Direct),
                            target: Some(target),
                            ..s
                        },
                        SessionAction::ConnectHost { host, port },
                    ),
                }
            } else {
                (s, SessionAction::Reply(SSHMessageResponse::SSHError(SCError::Error)))
            }
        },
        SSHMessage::ShellInput(data) => match (s.state, s.channel) {
            (SessionState::Ready, Some(channel)) => (s, SessionAction::Write { channel, data }),
            _ => (s, SessionAction::Reply(SSHMessageResponse::NoOp)),
        },
        SSHMessage::TerminalResize { width, height, pixelwidth, pixelheight } => match (
            s.state,
            s.channel,
        ) {
            (SessionState::Ready, Some(channel)) => (
                s,
                SessionAction::WindowChange {
                    channel,
                    cols: wrap_u32(width),
                    rows: wrap_u32(height),
                    pixel_width: wrap_u32(pixelwidth),
                    pixel_height: wrap_u32(pixelheight),
                },
            ),
            _ => (s, SessionAction::Reply(SSHMessageResponse::NoOp)),
        },
        SSHMessage::ShellOutput(_) => (s, SessionAction::Reply(SSHMessageResponse::NoOp)),
    }
}

/// The transition on a successful step.
pub open spec fn step_ok_next(s: SSHActor) -> (SSHActor, SessionAction) {
    match s.state {
        SessionState::Connecting(ConnectStage::JumpHostTransport) => match s.jump_host {
            Some(j) => (
                SSHActor { state: SessionState::Connecting(ConnectStage::JumpHostAuth), ..s },
                SessionAction::Authenticate { username: j.username, password: j.password },
            ),
            None => (s, SessionAction::Nothing),
        },
        SessionState::Connecting(ConnectStage::Tunnel) | SessionState::Connecting(
            ConnectStage::Direct,
        ) => match s.target {
            Some(t) => (
                SSHActor { state: SessionState::Authenticating, target: None, ..s },
                SessionAction::Authenticate { username: t.username, password: t.password },
            ),
            None => (s, SessionAction::Nothing),
        },
        SessionState::Ready => (s, SessionAction::Reply(SSHMessageResponse::NoOp)),
        _ => (s, SessionAction::Nothing),
    }
}

/// The transition on an answered authentication.
pub open spec fn auth_next(s: SSHActor, accepted: bool) -> (SSHActor, SessionAction) {
    match s.state {
        SessionState::Connecting(ConnectStage::JumpHostAuth) => if accepted {
            match s.target {
                Some(t) => (
                    SSHActor {
                        state: SessionState::Connecting(ConnectStage::Tunnel),
                        jump_host: None,
                        ..s
                    },
                    SessionAction::OpenTunnel { host: t.host, port: t.port },
                ),
                None => (s, SessionAction::Nothing),
            }
        } else {
            (
                failed_session(SCError::PermissionDenied),
                SessionAction::Reply(SSHMessageResponse::SSHError(SCError::PermissionDenied)),
            )
        },
        SessionState::Authenticating => if accepted {
            (
                SSHActor { state: SessionState::ChannelOpening, ..s },
                SessionAction::OpenShell {
                    cols: DEFAULT_COLS,
                    rows: DEFAULT_ROWS,
                    pixel_width: DEFAULT_PIXEL_WIDTH,
                    pixel_height: DEFAULT_PIXEL_HEIGHT,
                },
            )
        } else {
            (
                failed_session(SCError::PermissionDenied),
                SessionAction::Reply(SSHMessageResponse::PermissionDenied),
            )
        },
        _ => (s, SessionAction::Nothing),
    }
}

/// The transition of a session on one event.
pub open spec fn session_next(s: SSHActor, e: SessionEvent) -> (SSHActor, SessionAction) {
    match e {
        SessionEvent::Command(m) => command_next(s, m),
        SessionEvent::StepOk => step_ok_next(s),
        SessionEvent::AuthResult(accepted) => auth_next(s, accepted),
        SessionEvent::ChannelOpened(id) => if s.state is ChannelOpening {
            (
                SSHActor {
                    state: SessionState::Ready,
                    channel: Some(id),
                    target: None,
                    jump_host: None,
                },
                SessionAction::Reply(SSHMessageResponse::Connected),
            )
        } else {
            (s, SessionAction::Nothing)
        },
        SessionEvent::StepFailed(detail) => if is_setting_up(s.state) || s.state is Ready {
            (
                failed_session(SCError::SSHError(detail)),
                SessionAction::Reply(SSHMessageResponse::SSHError(SCError::SSHError(detail))),
            )
        } else {
            (s, SessionAction::Nothing)
        },
        SessionEvent::RemoteData(data) => (s, SessionAction::Forward(data)),
        SessionEvent::RemoteClosed => if s.state is Ready {
            (closed_session(), SessionAction::Nothing)
        } else {
            (s, SessionAction::Nothing)
        },
        SessionEvent::Teardown => (
            closed_session(),
            match s.channel {
                Some(channel) => SessionAction::CloseChannel { channel },
                None => SessionAction::Nothing,
            },
        ),
    }
}

/// The state and the actions after a sequence of events.
pub open spec fn session_run(s: SSHActor, events: Seq<SessionEvent>) -> (SSHActor, Seq<SessionAction>)
    decreases events.len(),
{
    if events.len() == 0 {
        (s, Seq::empty())
    } else {
        let (before, acts) = session_run(s, events.drop_last());
        let (after, a) = session_next(before, events.last());
        (after, acts.push(a))
    }
}

/// A dimension reinterpreted as unsigned, as the channel receives it.
fn dimension(x: i32) -> (r: u32)
    ensures
        r == wrap_u32(x),
{
    if x >= 0 {
        x as u32
    } else {
        (x as i64 + 0x1_0000_0000i64) as u32
    }
}

impl SSHActor {
    /// The well-formedness of a session: a shell channel is held exactly when
    /// the session is ready, and credentials only while it connects.
    pub open spec fn wf(&self) -> bool {
        &&& (self.channel is Some <==> self.state is Ready)
        &&& (self.target is Some <==> self.state is Connecting)
        &&& (self.jump_host is Some <==> (self.state == SessionState::Connecting(
            ConnectStage::JumpHostTransport,
        ) || self.state == SessionState::Connecting(ConnectStage::JumpHostAuth)))
    }

    /// A fresh, disconnected session.
    pub fn new() -> (r: SSHActor)
        ensures
            r.state == SessionState::Disconnected,
            r.channel is None,
            r.target is None,
            r.jump_host is None,
            r.wf(),
    {
        SSHActor { state: SessionState::Disconnected, channel: None, target: None, jump_host: None }
    }

    fn fail(&mut self, reason: SCError)
        ensures
            *final(self) == failed_session(reason),
    {
        self.state = SessionState::Failed(reason);
        self.channel = None;
        self.target = None;
        self.jump_host = None;
    }

    fn handle_command(&mut self, m: SSHMessage) -> (r: SessionAction)
        ensures
            (*final(self), r) == command_next(*old(self), m),
    {
        match m {
            SSHMessage::Connect { host, port, username, password, jump_host } => {
                if let SessionState::Disconnected = self.state {
                    match jump_host {
                        Some(j) => {
                            let action = SessionAction::ConnectHost {
                                host: j.host.clone(),
                                port: j.port,
                            };
                            self.state = SessionState::Connecting(ConnectStage::JumpHostTransport);
                            self.target = Some(SSHCredential { host, port, username, password });
                            self.jump_host = Some(j);
                            action
                        },
                        None => {
                            let action = SessionAction::ConnectHost { host: host.clone(), port };
                            self.state = SessionState::Connecting(ConnectStage::Direct);
                            self.target = Some(SSHCredential { host, port, username, password });
                            action
                        },
                    }
                } else {
                    SessionAction::Reply(SSHMessageResponse::SSHError(SCError::Error))
                }
            },
            SSHMessage::ShellInput(data) => match (&self.state, self.channel) {
                (SessionState::Ready, Some(channel)) => SessionAction::Write { channel, data },
                _ => SessionAction::Reply(SSHMessageResponse::NoOp),
            },
            SSHMessage::TerminalResize { width, height, pixelwidth, pixelheight } => match (
                &self.state,
                self.channel,
            ) {
                (SessionState::Ready, Some(channel)) => SessionAction::WindowChange {
                    channel,
                    cols: dimension(width),
                    rows: dimension(height),
                    pixel_width: dimension(pixelwidth),
                    pixel_height: dimension(pixelheight),
                },
                _ => SessionAction::Reply(SSHMessageResponse::NoOp),
            },
            SSHMessage::ShellOutput(_) => SessionAction::Reply(SSHMessageResponse::NoOp),
        }
    }

    fn handle_step_ok(&mut self) -> (r: SessionAction)
        ensures
            (*final(self), r) == step_ok_next(*old(self)),
    {
        match self.state {
            SessionState::Connecting(ConnectStage::JumpHostTransport) => match &self.jump_host {
                Some(j) => {
                    let action = SessionAction::Authenticate {
                        username: j.username.clone(),
                        password: j.password.clone(),
                    };
                    self.state = SessionState::Connecting(ConnectStage::JumpHostAuth);
                    action
                },
                None => SessionAction::Nothing,
            },
            SessionState::Connecting(ConnectStage::Tunnel) | SessionState::Connecting(
                ConnectStage::Direct,
            ) => match self.target.take() {
                Some(t) => {
                    self.state = SessionState::Authenticating;
                    SessionAction::Authenticate { username: t.username, password: t.password }
                },
                None => SessionAction::Nothing,
            },
            SessionState::Ready => SessionAction::Reply(SSHMessageResponse::NoOp),
            _ => SessionAction::Nothing,
        }
    }

    fn handle_auth(&mut self, accepted: bool) -> (r: SessionAction)
        ensures
            (*final(self), r) == auth_next(*old(self), accepted),
    {
        match self.state {
            SessionState::Connecting(ConnectStage::JumpHostAuth) => {
                if accepted {
                    match &self.target {
                        Some(t) => {
                            let action = SessionAction::OpenTunnel {
                                host: t.host.clone(),
                                port: t.port,
                            };
                            self.state = SessionState::Connecting(ConnectStage::Tunnel);
                            self.jump_host = None;
                            action
                        },
                        None => SessionAction::Nothing,
                    }
                } else {
                    self.fail(SCError::PermissionDenied);
                    SessionAction::Reply(SSHMessageResponse::SSHError(SCError::PermissionDenied))
                }
            },
            SessionState::Authenticating => {
                if accepted {
                    self.state = SessionState::ChannelOpening;
                    SessionAction::OpenShell {
                        cols: DEFAULT_COLS,
                        rows: DEFAULT_ROWS,
                        pixel_width: DEFAULT_PIXEL_WIDTH,
                        pixel_height: DEFAULT_PIXEL_HEIGHT,
                    }
                } else {
                    self.fail(SCError::PermissionDenied);
                    SessionAction::Reply(SSHMessageResponse::PermissionDenied)
                }
            },
            _ => SessionAction::Nothing,
        }
    }

    /// Processes one event: a command from the mailbox, the outcome of the
    /// last action, remote output or a teardown. The result is the one action
    /// that the runtime performs next.
    pub fn handle(&mut self, event: SessionEvent) -> (r: SessionAction)
        ensures
            (*final(self), r) == session_next(*old(self), event),
    {
        match event {
            SessionEvent::Command(m) => self.handle_command(m),
            SessionEvent::StepOk => self.handle_step_ok(),
            SessionEvent::AuthResult(accepted) => self.handle_auth(accepted),
            SessionEvent::ChannelOpened(id) => {
                if let SessionState::ChannelOpening = self.state {
                    self.state = SessionState::Ready;
                    self.channel = Some(id);
                    self.target = None;
                    self.jump_host = None;
                    SessionAction::Reply(SSHMessageResponse::Connected)
                } else {
                    SessionAction::Nothing
                }
            },
            SessionEvent::StepFailed(detail) => match self.state {
                SessionState::Connecting(_)
                | SessionState::Authenticating
                | SessionState::ChannelOpening
                | SessionState::Ready => {
                    let reason = detail.clone();
                    self.fail(SCError::SSHError(reason));
                    SessionAction::Reply(SSHMessageResponse::SSHError(SCError::SSHError(detail)))
                },
                _ => SessionAction::Nothing,
            },
            SessionEvent::RemoteData(data) => SessionAction::Forward(data),
            SessionEvent::RemoteClosed => {
                if let SessionState::Ready = self.state {
                    self.state = SessionState::Closed;
                    self.channel = None;
                    self.target = None;
                    self.jump_host = None;
                }
                SessionAction::Nothing
            },
            SessionEvent::Teardown => {
                let action = match self.channel {
                    Some(channel) => SessionAction::CloseChannel { channel },
                    None => SessionAction::Nothing,
                };
                self.state = SessionState::Closed;
                self.channel = None;
                self.target = None;
                self.jump_host = None;
                action
            },
        }
    }
}

} // verus!
