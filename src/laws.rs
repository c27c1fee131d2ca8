//! Properties of the two state machines over several events.
use crate::error::SCError;
use crate::front::{front_next, front_run, FrontAction, FrontEvent, FrontState};
use crate::messages::{SSHCredential, SSHMessage, SSHMessageResponse};
use crate::session::{
    is_setting_up, session_next, session_run, wrap_u32, SSHActor, SessionAction, SessionEvent,
    SessionState, DEFAULT_COLS, DEFAULT_PIXEL_HEIGHT, DEFAULT_PIXEL_WIDTH, DEFAULT_ROWS,
};
use vstd::prelude::*;

verus! {

/// The shell channel that an action operates on, if any.
pub open spec fn channel_of(a: SessionAction) -> Option<u32> {
    match a {
        SessionAction::Write { channel, .. } => Some(channel),
        SessionAction::WindowChange { channel, .. } => Some(channel),
        SessionAction::CloseChannel { channel } => Some(channel),
        _ => None,
    }
}

/// True of the commands that operate on a ready session's channel.
pub open spec fn is_channel_command(m: SSHMessage) -> bool {
    m is ShellInput || m is TerminalResize
}

/// The channel operation that a ready session requests for a channel command.
pub open spec fn channel_op(channel: u32, m: SSHMessage) -> SessionAction {
    match m {
        SSHMessage::ShellInput(data) => SessionAction::Write { channel, data },
        SSHMessage::TerminalResize { width, height, pixelwidth, pixelheight } => {
            SessionAction::WindowChange {
                channel,
                cols: wrap_u32(width),
                rows: wrap_u32(height),
                pixel_width: wrap_u32(pixelwidth),
                pixel_height: wrap_u32(pixelheight),
            }
        },
        _ => SessionAction::Nothing,
    }
}

/// A session holds at most one shell channel. From a well-formed state every
/// event leads to a well-formed state (a channel is held exactly when the
/// session is ready), a held channel is never swapped for another, and an
/// operation on a channel is only requested for the one channel that the
/// session holds. A session only becomes ready, and so only comes to hold a
/// channel, when the channel set-up that follows authentication completes.
pub proof fn lemma_single_channel(s: SSHActor, e: SessionEvent)
    requires
        s.wf(),
    ensures
        session_next(s, e).0.wf(),
        session_next(s, e).0.state is Ready && !(s.state is Ready) ==> s.state is ChannelOpening
            && e is ChannelOpened,
        s.channel is Some && session_next(s, e).0.channel is Some ==> session_next(s, e).0.channel
            == s.channel,
        channel_of(session_next(s, e).1) is Some ==> s.channel == channel_of(
            session_next(s, e).1,
        ),
{
}

/// Over any sequence of events, a well-formed session stays well-formed: it
/// never holds more than the one channel of a ready session.
pub proof fn lemma_single_channel_run(s: SSHActor, events: Seq<SessionEvent>)
    requires
        s.wf(),
    ensures
        session_run(s, events).0.wf(),
    decreases events.len(),
{
    if events.len() > 0 {
        lemma_single_channel_run(s, events.drop_last());
        lemma_single_channel(session_run(s, events.drop_last()).0, events.last());
    }
}

/// The browser side forwards channel commands in the order in which their
/// frames arrive: on a connection that is not closed, a sequence of such
/// commands yields exactly one forward of each, in the same order.
pub proof fn lemma_front_keeps_order(s: FrontState, ms: Seq<SSHMessage>)
    requires
        !(s is Closed),
        forall|i: int| 0 <= i < ms.len() ==> is_channel_command(#[trigger] ms[i]),
    ensures
        front_run(s, ms.map_values(|m: SSHMessage| FrontEvent::Message(m))) == (
            s,
            ms.map_values(|m: SSHMessage| FrontAction::Forward(m)),
        ),
    decreases ms.len(),
{
    let evs = ms.map_values(|m: SSHMessage| FrontEvent::Message(m));
    if ms.len() > 0 {
        let init = ms.drop_last();
        assert(evs.drop_last() =~= init.map_values(|m: SSHMessage| FrontEvent::Message(m)));
        assert(init.map_values(|m: SSHMessage| FrontAction::Forward(m)).push(
            FrontAction::Forward(ms.last()),
        ) =~= ms.map_values(|m: SSHMessage| FrontAction::Forward(m)));
        assert(is_channel_command(ms[ms.len() - 1]));
        lemma_front_keeps_order(s, init);
    } else {
        assert(ms.map_values(|m: SSHMessage| FrontAction::Forward(m)) =~= Seq::empty());
    }
}

/// A ready session requests the channel operations for a sequence of channel
/// commands in the order in which the commands reach it, one for each, and
/// stays as it was.
pub proof fn lemma_session_keeps_order(s: SSHActor, ms: Seq<SSHMessage>)
    requires
        s.wf(),
        s.state is Ready,
        forall|i: int| 0 <= i < ms.len() ==> is_channel_command(#[trigger] ms[i]),
    ensures
        session_run(s, ms.map_values(|m: SSHMessage| SessionEvent::Command(m))) == (
            s,
            ms.map_values(|m: SSHMessage| channel_op(s.channel->0, m)),
        ),
    decreases ms.len(),
{
    let evs = ms.map_values(|m: SSHMessage| SessionEvent::Command(m));
    if ms.len() > 0 {
        let init = ms.drop_last();
        assert(evs.drop_last() =~= init.map_values(|m: SSHMessage| SessionEvent::Command(m)));
        assert(init.map_values(|m: SSHMessage| channel_op(s.channel->0, m)).push(
            channel_op(s.channel->0, ms.last()),
        ) =~= ms.map_values(|m: SSHMessage| channel_op(s.channel->0, m)));
        assert(is_channel_command(ms[ms.len() - 1]));
        lemma_session_keeps_order(s, init);
    } else {
        assert(ms.map_values(|m: SSHMessage| channel_op(s.channel->0, m)) =~= Seq::empty());
    }
}

/// Before the session is ready, input and resize commands are answered with
/// `NoOp` and change nothing.
pub proof fn lemma_soft_fail_before_ready(s: SSHActor, m: SSHMessage)
    requires
        s.state is Disconnected || is_setting_up(s.state),
        is_channel_command(m),
    ensures
        session_next(s, SessionEvent::Command(m)) == (
            s,
            SessionAction::Reply(SSHMessageResponse::NoOp),
        ),
{
}

/// The connect request of a direct connection to `target`.
pub open spec fn direct_connect(target: SSHCredential) -> SSHMessage {
    SSHMessage::Connect {
        host: target.host,
        port: target.port,
        username: target.username,
        password: target.password,
        jump_host: None,
    }
}

/// The connect request for `target` through the jump host `jump`.
pub open spec fn jump_connect(target: SSHCredential, jump: SSHCredential) -> SSHMessage {
    SSHMessage::Connect {
        host: target.host,
        port: target.port,
        username: target.username,
        password: target.password,
        jump_host: Some(jump),
    }
}

/// A direct connect first asks for a connection to the target. If the target
/// cannot be reached the answer is a transport error; if it is reached but
/// rejects the credentials the answer is `PermissionDenied`. Either way the
/// session ends `Failed`, never `Ready`.
pub proof fn lemma_auth_outcomes(s: SSHActor, target: SSHCredential, detail: String)
    requires
        s.wf(),
        s.state is Disconnected,
    ensures
        ({
            let (s1, a1) = session_next(s, SessionEvent::Command(direct_connect(target)));
            let (unreachable, a_unreachable) = session_next(s1, SessionEvent::StepFailed(detail));
            let (s2, a2) = session_next(s1, SessionEvent::StepOk);
            let (rejected, a_rejected) = session_next(s2, SessionEvent::AuthResult(false));
            &&& a1 == SessionAction::ConnectHost { host: target.host, port: target.port }
            &&& a_unreachable == SessionAction::Reply(
                SSHMessageResponse::SSHError(SCError::SSHError(detail)),
            )
            &&& unreachable.state == SessionState::Failed(SCError::SSHError(detail))
            &&& a2 == SessionAction::Authenticate {
                username: target.username,
                password: target.password,
            }
            &&& a_rejected == SessionAction::Reply(SSHMessageResponse::PermissionDenied)
            &&& rejected.state == SessionState::Failed(SCError::PermissionDenied)
        }),
{
}

/// Through a jump host that accepts its credentials, the session connects and
/// authenticates to the jump host, opens the tunnel to the target and then
/// authenticates to the target. A target that rejects its credentials is
/// reported as `PermissionDenied`, a target that cannot be reached through the
/// tunnel as a transport error: failures of the target, not of the jump host.
pub proof fn lemma_jump_host_chain(
    s: SSHActor,
    target: SSHCredential,
    jump: SSHCredential,
    detail: String,
)
    requires
        s.wf(),
        s.state is Disconnected,
    ensures
        ({
            let (s1, a1) = session_next(s, SessionEvent::Command(jump_connect(target, jump)));
            let (s2, a2) = session_next(s1, SessionEvent::StepOk);
            let (s3, a3) = session_next(s2, SessionEvent::AuthResult(true));
            let (unreachable, a_unreachable) = session_next(s3, SessionEvent::StepFailed(detail));
            let (s4, a4) = session_next(s3, SessionEvent::StepOk);
            let (rejected, a_rejected) = session_next(s4, SessionEvent::AuthResult(false));
            &&& a1 == SessionAction::ConnectHost { host: jump.host, port: jump.port }
            &&& a2 == SessionAction::Authenticate {
                username: jump.username,
                password: jump.password,
            }
            &&& a3 == SessionAction::OpenTunnel { host: target.host, port: target.port }
            &&& a_unreachable == SessionAction::Reply(
                SSHMessageResponse::SSHError(SCError::SSHError(detail)),
            )
            &&& unreachable.state is Failed
            &&& a4 == SessionAction::Authenticate {
                username: target.username,
                password: target.password,
            }
            &&& a_rejected == SessionAction::Reply(SSHMessageResponse::PermissionDenied)
            &&& rejected.state == SessionState::Failed(SCError::PermissionDenied)
        }),
{
}

/// A direct connect whose target accepts the credentials: the shell is opened
/// with the default geometry and the session becomes ready on the channel.
pub proof fn lemma_connect_to_ready(s: SSHActor, target: SSHCredential, channel: u32)
    requires
        s.wf(),
        s.state is Disconnected,
    ensures
        ({
            let (s1, _) = session_next(s, SessionEvent::Command(direct_connect(target)));
            let (s2, _) = session_next(s1, SessionEvent::StepOk);
            let (s3, a3) = session_next(s2, SessionEvent::AuthResult(true));
            let (s4, a4) = session_next(s3, SessionEvent::ChannelOpened(channel));
            &&& a3 == SessionAction::OpenShell {
                cols: DEFAULT_COLS,
                rows: DEFAULT_ROWS,
                pixel_width: DEFAULT_PIXEL_WIDTH,
                pixel_height: DEFAULT_PIXEL_HEIGHT,
            }
            &&& a4 == SessionAction::Reply(SSHMessageResponse::Connected)
            &&& s4.state is Ready
            &&& s4.channel == Some(channel)
            &&& s4.target is None
            &&& s4.jump_host is None
        }),
{
}

/// Bytes travel unchanged both ways. Input that the browser side receives on
/// a streaming connection is forwarded as it is, and a ready session writes
/// exactly those bytes to its channel; output of the remote shell is handed
/// to the browser side as it is.
pub proof fn lemma_round_trip(f: FrontState, s: SSHActor, input: Vec<u8>, output: Vec<u8>)
    requires
        f is Streaming,
        s.wf(),
        s.state is Ready,
    ensures
        front_next(f, FrontEvent::Message(SSHMessage::ShellInput(input))) == (
            f,
            FrontAction::Forward(SSHMessage::ShellInput(input)),
        ),
        session_next(s, SessionEvent::Command(SSHMessage::ShellInput(input))) == (
            s,
            SessionAction::Write { channel: s.channel->0, data: input },
        ),
        session_next(s, SessionEvent::RemoteData(output)) == (s, SessionAction::Forward(output)),
{
}

/// The same resize twice on a ready session: each is passed to the channel
/// and, once done, answered with its own `NoOp`; the session is unchanged.
pub proof fn lemma_resize_twice(s: SSHActor, width: i32, height: i32, pw: i32, ph: i32)
    requires
        s.wf(),
        s.state is Ready,
    ensures
        ({
            let resize = SessionEvent::Command(
                SSHMessage::TerminalResize { width, height, pixelwidth: pw, pixelheight: ph },
            );
            let change = SessionAction::WindowChange {
                channel: s.channel->0,
                cols: wrap_u32(width),
                rows: wrap_u32(height),
                pixel_width: wrap_u32(pw),
                pixel_height: wrap_u32(ph),
            };
            let (s1, a1) = session_next(s, resize);
            let (s2, a2) = session_next(s1, SessionEvent::StepOk);
            let (s3, a3) = session_next(s2, resize);
            let (s4, a4) = session_next(s3, SessionEvent::StepOk);
            &&& a1 == change
            &&& a2 == SessionAction::Reply(SSHMessageResponse::NoOp)
            &&& a3 == change
            &&& a4 == SessionAction::Reply(SSHMessageResponse::NoOp)
            &&& s4 == s
        }),
{
}

} // verus!
