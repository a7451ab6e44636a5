use message::dispatch::{handler_step, Reply};
use message::handler::{auth_gate, auth_verdict, echo, route_control, Answer, ControlRoute, HandlerError};
use message::ids::GROUP_ID_THRESHOLD;
use message::msg::{Msg, TYPE_ACK, TYPE_AUTH, TYPE_ECHO, TYPE_NOOP};

fn msg(typ: u16, sender: u64, receiver: u64, node_id: u32) -> Msg {
    Msg {
        typ,
        sender,
        receiver,
        node_id,
        seq_num: 5,
        timestamp: 1000,
        payload: b"hello".to_vec(),
        extension: vec![],
    }
}

#[test]
fn echo_ignores_other_types() {
    assert!(matches!(echo(&msg(32, 1, 0, 1), 9), Err(HandlerError::NotMine)));
    assert!(matches!(echo(&msg(TYPE_AUTH, 1, 0, 1), 9), Err(HandlerError::NotMine)));
}

#[test]
fn echo_to_no_one_comes_back_from_no_one() {
    match echo(&msg(TYPE_ECHO, 42, 0, 1), 2024) {
        Ok(Answer::Message(m)) => {
            assert_eq!(m.sender, 0);
            assert_eq!(m.receiver, 0);
            assert_eq!(m.timestamp, 2024);
            assert_eq!(m.typ, TYPE_ECHO);
            assert_eq!(m.seq_num, 5);
            assert_eq!(m.node_id, 1);
            assert_eq!(m.payload, b"hello".to_vec());
        }
        _ => panic!("expected the echoed message"),
    }
}

#[test]
fn echo_to_someone_is_acknowledged() {
    assert!(matches!(echo(&msg(TYPE_ECHO, 42, 7, 1), 2024), Ok(Answer::Ack)));
}

#[test]
fn auth_serves_only_auth_messages() {
    assert!(matches!(auth_gate(&msg(TYPE_ECHO, 42, 0, 1)), Err(HandlerError::NotMine)));
    assert!(matches!(auth_gate(&msg(TYPE_AUTH, 42, 0, 1)), Ok(42)));
}

#[test]
fn auth_verdict_passes_the_refusal_on() {
    assert!(matches!(auth_verdict(Ok(())), Ok(Answer::AckTyped(t)) if t == TYPE_AUTH));
    match auth_verdict(Err("token expired".to_string())) {
        Err(HandlerError::Auth(text)) => assert_eq!(text, "token expired"),
        _ => panic!("expected an authentication error"),
    }
}

#[test]
fn control_messages_are_routed() {
    let group = GROUP_ID_THRESHOLD + 9;
    assert!(matches!(route_control(&msg(64, 1, group, 3), 3), Ok(ControlRoute::Group)));
    assert!(matches!(
        route_control(&msg(95, 1, 8, 3), 3),
        Ok(ControlRoute::LocalUser { receiver: 8 })
    ));
    assert!(matches!(
        route_control(&msg(70, 1, 8, 4), 3),
        Ok(ControlRoute::RemoteNode { node_id: 4 })
    ));
    assert!(matches!(
        route_control(&msg(70, 1, group, 4), 3),
        Ok(ControlRoute::RemoteNode { node_id: 4 })
    ));
}

#[test]
fn control_handler_ignores_other_types() {
    assert!(matches!(route_control(&msg(63, 1, 8, 3), 3), Err(HandlerError::NotMine)));
    assert!(matches!(route_control(&msg(96, 1, 8, 3), 3), Err(HandlerError::NotMine)));
}

#[test]
fn noop_answer_stops_silently() {
    let req = msg(32, 42, 7, 3);
    let (replies, stop) = handler_step(&req, 3, Ok(msg(TYPE_NOOP, 0, 0, 3)));
    assert!(replies.is_empty());
    assert!(stop);
}

#[test]
fn ack_answer_is_sent_alone() {
    let req = msg(32, 42, 7, 3);
    let (replies, stop) = handler_step(&req, 3, Ok(msg(TYPE_ACK, 7, 42, 3)));
    assert!(stop);
    assert_eq!(replies.len(), 1);
    assert!(matches!(&replies[0], Reply::Send(m) if m.typ == TYPE_ACK && m.receiver == 42));
}

#[test]
fn other_answer_is_sent_and_acknowledged() {
    let req = msg(32, 42, 7, 3);
    let (replies, stop) = handler_step(&req, 3, Ok(msg(32, 42, 7, 3)));
    assert!(stop);
    assert_eq!(replies.len(), 2);
    assert!(matches!(&replies[0], Reply::Send(m) if m.typ == 32));
    assert!(matches!(&replies[1], Reply::Ack { sender: 3, receiver: 42 }));
}

#[test]
fn not_mine_moves_on_silently() {
    let req = msg(32, 42, 7, 3);
    let (replies, stop) = handler_step(&req, 3, Err(HandlerError::NotMine));
    assert!(replies.is_empty());
    assert!(!stop);
}

#[test]
fn refused_credentials_send_auth_failed_and_move_on() {
    let req = msg(32, 42, 7, 3);
    let (replies, stop) = handler_step(&req, 3, Err(HandlerError::Auth("bad token".to_string())));
    assert!(!stop);
    assert_eq!(replies.len(), 1);
    match &replies[0] {
        Reply::Error { sender, receiver, node_id, text } => {
            assert_eq!((*sender, *receiver, *node_id), (3, 42, 3));
            assert_eq!(text, "auth failed");
        }
        _ => panic!("expected an error reply"),
    }
}

#[test]
fn parse_failure_sends_its_cause_and_moves_on() {
    let req = msg(32, 42, 7, 3);
    let (replies, stop) = handler_step(&req, 3, Err(HandlerError::Parse("bad payload".to_string())));
    assert!(!stop);
    assert!(matches!(&replies[..], [Reply::Error { text, receiver: 42, .. }] if text == "bad payload"));
}

#[test]
fn other_failure_sends_unhandled_error_and_stops() {
    let req = msg(32, 42, 7, 3);
    let (replies, stop) = handler_step(&req, 3, Err(HandlerError::Other("redis down".to_string())));
    assert!(stop);
    assert!(matches!(&replies[..], [Reply::Error { text, receiver: 42, sender: 3, node_id: 3 }] if text == "unhandled error"));
}
