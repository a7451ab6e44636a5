use message::dispatch::{reply_msg, Reply};
use message::handler::{answer_msg, Answer};
use message::msg::{error_msg, Msg, TYPE_ACK, TYPE_AUTH, TYPE_ERROR};

fn sample() -> Msg {
    Msg {
        typ: 0x0120,
        sender: 0x0102030405060708,
        receiver: 9,
        node_id: 0x0A0B0C0D,
        seq_num: 1,
        timestamp: 0x1122334455667788,
        payload: vec![0xAA, 0xBB],
        extension: vec![0xCC],
    }
}

#[test]
fn encoding_is_big_endian_header_then_sections() {
    let bytes = sample().encode();
    let mut expected: Vec<u8> = vec![0x01, 0x20];
    expected.extend_from_slice(&[1, 2, 3, 4, 5, 6, 7, 8]);
    expected.extend_from_slice(&[0, 0, 0, 0, 0, 0, 0, 9]);
    expected.extend_from_slice(&[0x0A, 0x0B, 0x0C, 0x0D]);
    expected.extend_from_slice(&[0, 0, 0, 0, 0, 0, 0, 1]);
    expected.extend_from_slice(&[0x11, 0x22, 0x33, 0x44, 0x55, 0x66, 0x77, 0x88]);
    expected.extend_from_slice(&[0, 0, 0, 0, 0, 0, 0, 2]);
    expected.extend_from_slice(&[0, 0, 0, 0, 0, 0, 0, 1]);
    expected.extend_from_slice(&[0xAA, 0xBB, 0xCC]);
    assert_eq!(bytes, expected);
    assert_eq!(bytes.len(), 2 + 8 + 8 + 4 + 8 + 8 + 8 + 8 + 3);
}

#[test]
fn ack_goes_back_to_the_sender() {
    let ack = sample().ack(4, 500);
    assert_eq!(ack.typ, TYPE_ACK);
    assert_eq!((ack.sender, ack.receiver), (9, 0x0102030405060708));
    assert_eq!(ack.node_id, 4);
    assert_eq!(ack.seq_num, 1);
    assert_eq!(ack.timestamp, 500);
    assert_eq!(ack.payload, vec![0x11, 0x22, 0x33, 0x44, 0x55, 0x66, 0x77, 0x88]);
    assert!(ack.extension.is_empty());
}

#[test]
fn error_message_carries_its_text() {
    let m = error_msg(4, 9, 4, "auth failed", 77);
    assert_eq!(m.typ, TYPE_ERROR);
    assert_eq!((m.sender, m.receiver, m.node_id, m.seq_num, m.timestamp), (4, 9, 4, 0, 77));
    assert_eq!(m.payload, b"auth failed".to_vec());
    assert_eq!(error_msg(1, 2, 3, "ünïcode", 0).payload, "ünïcode".as_bytes().to_vec());
}

#[test]
fn ack_reply_is_readdressed_with_seq_zero() {
    let m = reply_msg(Reply::Ack { sender: 4, receiver: 0x0102030405060708 }, &sample(), 4, 10);
    assert_eq!(m.typ, TYPE_ACK);
    assert_eq!((m.sender, m.receiver, m.seq_num, m.timestamp), (4, 0x0102030405060708, 0, 10));
}

#[test]
fn error_reply_becomes_an_error_message() {
    let reply = Reply::Error { sender: 4, receiver: 8, node_id: 4, text: "unhandled error".to_string() };
    let m = reply_msg(reply, &sample(), 4, 10);
    assert_eq!(m.typ, TYPE_ERROR);
    assert_eq!(m.payload, b"unhandled error".to_vec());
    assert_eq!(m.receiver, 8);
}

#[test]
fn sent_reply_is_the_answer_itself() {
    let m = reply_msg(Reply::Send(sample()), &sample(), 4, 10);
    assert_eq!(m.encode(), sample().encode());
}

#[test]
fn typed_ack_answer_keeps_the_type() {
    let m = answer_msg(Answer::AckTyped(TYPE_AUTH), &sample(), 4, 10);
    assert_eq!(m.typ, TYPE_AUTH);
    assert_eq!((m.sender, m.receiver, m.timestamp), (9, 0x0102030405060708, 10));
    let plain = answer_msg(Answer::Ack, &sample(), 4, 10);
    assert_eq!(plain.typ, TYPE_ACK);
}
