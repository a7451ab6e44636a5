use message::dispatch::Reply;
use message::msg::{Msg, TYPE_AUTH};
use message::session::{last_online_time, Session, SessionAction, SessionEvent, SessionState};

fn msg(typ: u16, sender: u64) -> Msg {
    Msg { typ, sender, receiver: 0, node_id: 1, seq_num: 0, timestamp: 0, payload: vec![], extension: vec![] }
}

#[test]
fn login_then_messages_then_leave() {
    let mut s = Session::new(7);
    assert!(matches!(s.step(SessionEvent::Inbound(Some(msg(TYPE_AUTH, 42)))), SessionAction::Authenticate(m) if m.sender == 42));
    assert!(matches!(s.state, SessionState::Authenticating { user_id: 42 }));
    assert!(matches!(s.step(SessionEvent::AuthAnswered { accepted: true }), SessionAction::Register { user_id: 42 }));
    assert!(matches!(s.state, SessionState::Active { user_id: 42 }));
    assert!(matches!(s.step(SessionEvent::Inbound(Some(msg(32, 42)))), SessionAction::Dispatch(m) if m.typ == 32));
    assert!(matches!(s.step(SessionEvent::Inbound(Some(msg(64, 42)))), SessionAction::Dispatch(m) if m.typ == 64));
    assert!(matches!(s.step(SessionEvent::Inbound(None)), SessionAction::Finish { user_id: 42 }));
    assert!(matches!(s.state, SessionState::Closed));
    assert!(matches!(s.step(SessionEvent::Inbound(Some(msg(32, 42)))), SessionAction::Ignore));
}

#[test]
fn first_message_must_authenticate() {
    let mut s = Session::new(7);
    assert!(matches!(s.step(SessionEvent::Inbound(Some(msg(32, 42)))), SessionAction::Fail(t) if t == "auth failed"));
    assert!(matches!(s.state, SessionState::Closed));
}

#[test]
fn no_first_message_fails() {
    let mut s = Session::new(7);
    assert!(matches!(s.step(SessionEvent::Inbound(None)), SessionAction::Fail(t) if t == "cannot receive auth message"));
    assert!(matches!(s.state, SessionState::Closed));
}

#[test]
fn refused_login_sends_auth_failed() {
    let mut s = Session::new(7);
    s.step(SessionEvent::Inbound(Some(msg(TYPE_AUTH, 42))));
    match s.step(SessionEvent::AuthAnswered { accepted: false }) {
        SessionAction::RejectAuth(Reply::Error { sender, receiver, node_id, text }) => {
            assert_eq!((sender, receiver, node_id), (7, 42, 0));
            assert_eq!(text, "auth failed");
        }
        _ => panic!("expected the refusal"),
    }
    assert!(matches!(s.state, SessionState::Closed));
}

#[test]
fn failed_dispatch_abandons_the_connection() {
    let mut s = Session::new(7);
    s.step(SessionEvent::Inbound(Some(msg(TYPE_AUTH, 42))));
    s.step(SessionEvent::AuthAnswered { accepted: true });
    assert!(matches!(s.step(SessionEvent::DispatchFailed), SessionAction::Abandon));
    assert!(matches!(s.state, SessionState::Closed));
}

#[test]
fn events_out_of_turn_are_ignored() {
    let mut s = Session::new(7);
    assert!(matches!(s.step(SessionEvent::AuthAnswered { accepted: true }), SessionAction::Ignore));
    assert!(matches!(s.state, SessionState::AwaitingAuth));
    s.step(SessionEvent::Inbound(Some(msg(TYPE_AUTH, 42))));
    assert!(matches!(s.step(SessionEvent::Inbound(Some(msg(32, 42)))), SessionAction::Ignore));
    assert!(matches!(s.state, SessionState::Authenticating { user_id: 42 }));
}

#[test]
fn last_online_is_now_less_the_idle_timeout() {
    assert_eq!(last_online_time(1_000_000, 60_000), 940_000);
    assert_eq!(last_online_time(5, 5), 0);
}
