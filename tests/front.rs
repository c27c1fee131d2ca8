use shellcove::{
    encode_output, FrontAction, FrontEvent, FrontState, SCError, SSHMessage, SSHMessageResponse,
    Setting, WSActor, DEFAULT_LISTEN_ADDR, DEFAULT_LISTEN_PORT,
};

fn connect() -> SSHMessage {
    SSHMessage::Connect {
        host: "h".to_string(),
        port: 22,
        username: "u".to_string(),
        password: "p".to_string(),
        jump_host: None,
    }
}

fn streaming() -> WSActor {
    let mut w = WSActor::new();
    w.handle(FrontEvent::Message(connect()));
    w.handle(FrontEvent::Reply(SSHMessageResponse::Connected));
    assert_eq!(w.state, FrontState::Streaming);
    w
}

#[test]
fn new_front_is_idle() {
    assert_eq!(WSActor::new().state, FrontState::Idle);
}

#[test]
fn connect_is_forwarded_and_awaited() {
    let mut w = WSActor::new();
    assert_eq!(w.handle(FrontEvent::Message(connect())), FrontAction::Forward(connect()));
    assert_eq!(w.state, FrontState::AwaitingConnect);
    assert_eq!(w.handle(FrontEvent::Reply(SSHMessageResponse::Connected)), FrontAction::Nothing);
    assert_eq!(w.state, FrontState::Streaming);
}

#[test]
fn failed_connect_closes() {
    let mut w = WSActor::new();
    w.handle(FrontEvent::Message(connect()));
    assert_eq!(
        w.handle(FrontEvent::Reply(SSHMessageResponse::PermissionDenied)),
        FrontAction::Shutdown
    );
    assert_eq!(w.state, FrontState::Closed);
    assert_eq!(
        w.handle(FrontEvent::Message(SSHMessage::ShellInput(vec![1]))),
        FrontAction::Nothing
    );
}

#[test]
fn ping_gets_pong() {
    let mut w = WSActor::new();
    assert_eq!(w.handle(FrontEvent::Ping(vec![9, 8])), FrontAction::Pong(vec![9, 8]));
    assert_eq!(w.state, FrontState::Idle);
}

#[test]
fn binary_is_echoed() {
    let mut w = streaming();
    assert_eq!(w.handle(FrontEvent::Binary(vec![0, 255])), FrontAction::SendBinary(vec![0, 255]));
}

#[test]
fn malformed_frame_ends_connection() {
    let mut w = streaming();
    assert_eq!(w.handle(FrontEvent::Malformed), FrontAction::Shutdown);
    assert_eq!(w.state, FrontState::Closed);
}

#[test]
fn transport_close_ends_connection() {
    let mut w = WSActor::new();
    assert_eq!(w.handle(FrontEvent::TransportClosed), FrontAction::Shutdown);
    assert_eq!(w.state, FrontState::Closed);
    assert_eq!(w.handle(FrontEvent::Ping(vec![])), FrontAction::Nothing);
}

#[test]
fn frames_forwarded_in_arrival_order() {
    let mut w = streaming();
    let msgs = vec![
        SSHMessage::ShellInput(b"l".to_vec()),
        SSHMessage::ShellInput(b"s".to_vec()),
        SSHMessage::TerminalResize { width: 90, height: 30, pixelwidth: 1, pixelheight: 2 },
        SSHMessage::ShellInput(b"\n".to_vec()),
    ];
    let mut out = Vec::new();
    for m in msgs.clone() {
        out.push(w.handle(FrontEvent::Message(m)));
    }
    let expected: Vec<FrontAction> = msgs.into_iter().map(FrontAction::Forward).collect();
    assert_eq!(out, expected);
    assert_eq!(w.state, FrontState::Streaming);
}

#[test]
fn input_before_connect_is_forwarded() {
    let mut w = WSActor::new();
    assert_eq!(
        w.handle(FrontEvent::Message(SSHMessage::ShellInput(b"x".to_vec()))),
        FrontAction::Forward(SSHMessage::ShellInput(b"x".to_vec()))
    );
    assert_eq!(w.handle(FrontEvent::Reply(SSHMessageResponse::NoOp)), FrontAction::Nothing);
    assert_eq!(w.state, FrontState::Idle);
}

#[test]
fn session_failure_while_streaming_closes() {
    let mut w = streaming();
    assert_eq!(
        w.handle(FrontEvent::Reply(SSHMessageResponse::SSHError(SCError::SSHError(
            "eof".to_string()
        )))),
        FrontAction::Shutdown
    );
    assert_eq!(w.state, FrontState::Closed);
}

#[test]
fn shell_output_from_browser_is_ignored() {
    let mut w = streaming();
    assert_eq!(
        w.handle(FrontEvent::Message(SSHMessage::ShellOutput(b"x".to_vec()))),
        FrontAction::Nothing
    );
}

#[test]
fn output_text_is_exact() {
    assert_eq!(encode_output(b"echo hi\n".to_vec()), Ok("echo hi\n".to_string()));
    assert_eq!(encode_output(Vec::new()), Ok(String::new()));
}

#[test]
fn output_multibyte_text() {
    assert_eq!(encode_output(vec![0xc3, 0xa9, b'!']), Ok("\u{e9}!".to_string()));
}

#[test]
fn output_invalid_utf8_is_byte_parse_error() {
    assert_eq!(encode_output(vec![0xff, 0xfe]), Err(SCError::ByteParseError));
    assert_eq!(encode_output(vec![b'a', 0xc3]), Err(SCError::ByteParseError));
}

#[test]
fn listen_defaults() {
    let s = Setting { listen_addr: DEFAULT_LISTEN_ADDR.to_string(), listen_port: DEFAULT_LISTEN_PORT };
    assert_eq!(s.listen_addr, "127.0.0.1");
    assert_eq!(s.listen_port, 8080);
}
