use gossip_glomers::broadcast::{Broadcast, NoTopology, Payload};
use gossip_glomers::echo::{Echo, EchoPayload};
use gossip_glomers::handshake::{HandshakeError, InitRequest, InitResponse};
use gossip_glomers::message::{Body, Init, Message};
use gossip_glomers::session::{DispatchError, Session};

fn init_line() -> Option<Result<Message<InitRequest>, String>> {
    Some(Ok(Message {
        src: "c1".to_string(),
        dest: "n1".to_string(),
        body: Body {
            msg_id: Some(1),
            in_reply_to: None,
            payload: InitRequest::Init(Init { node_id: "n1".to_string(), node_ids: vec!["n1".to_string()] }),
        },
    }))
}

fn msg<P>(msg_id: Option<usize>, payload: P) -> Message<P> {
    Message {
        src: "c1".to_string(),
        dest: "n1".to_string(),
        body: Body { msg_id, in_reply_to: None, payload },
    }
}

#[test]
fn session_starts_with_init_ok() {
    let (_, ack) = Session::<Broadcast>::start(init_line()).unwrap();
    assert_eq!(ack.body.payload, InitResponse::InitOk);
    assert_eq!(ack.body.in_reply_to, Some(1));
    assert_eq!(ack.body.msg_id, Some(2));
    assert_eq!(ack.src, "n1");
    assert_eq!(ack.dest, "c1");
}

#[test]
fn session_without_init_fails() {
    assert!(matches!(Session::<Broadcast>::start::<String>(None), Err(HandshakeError::Missing)));
    let bad = Session::<Echo>::start::<String>(Some(Err("bad".to_string())));
    assert!(matches!(bad, Err(HandshakeError::Malformed(e)) if e == "bad"));
}

#[test]
fn session_dispatches_to_node() {
    let (mut session, _) = Session::<Broadcast>::start(init_line()).unwrap();
    let m = msg(Some(2), Payload::Broadcast { message: 42 });
    assert!(session.can_accept(&m));
    let out = session.receive::<String>(Ok(m)).unwrap();
    assert_eq!(out.len(), 1);
    assert!(matches!(out[0].body.payload, Payload::BroadcastOk));
    let out = session.receive::<String>(Ok(msg(Some(3), Payload::Read))).unwrap();
    match &out[0].body.payload {
        Payload::ReadOk { messages } => assert_eq!(messages, &vec![42]),
        other => panic!("unexpected reply {:?}", other),
    }
}

#[test]
fn session_stops_on_undecodable_line() {
    let (mut session, _) = Session::<Broadcast>::start(init_line()).unwrap();
    let r = session.receive::<String>(Err("garbage".to_string()));
    assert!(matches!(r, Err(DispatchError::Decode(e)) if e == "garbage"));
}

#[test]
fn session_stops_on_handler_failure() {
    let (mut session, _) = Session::<Broadcast>::start(init_line()).unwrap();
    let t = vec![("n2".to_string(), vec!["n1".to_string()])];
    let r = session.receive::<String>(Ok(msg(Some(2), Payload::Topology { topology: t })));
    assert!(matches!(r, Err(DispatchError::Handle(NoTopology))));
}

#[test]
fn session_refuses_echo_id_at_limit() {
    let (session, _) = Session::<Echo>::start(init_line()).unwrap();
    assert!(!session.can_accept(&msg(Some(usize::MAX), EchoPayload::Echo { echo: "x".to_string() })));
    assert!(session.can_accept(&msg(Some(5), EchoPayload::Echo { echo: "x".to_string() })));
}

