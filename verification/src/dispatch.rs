//! Running a message through the handler chain: what is sent back for each
//! handler's outcome, and when the chain stops.
use vstd::prelude::*;
use crate::handler::HandlerError;
use crate::msg::{spec_ack, spec_error_msg, error_msg, Msg, MsgView, TYPE_ACK, TYPE_ERROR, TYPE_NOOP};

verus! {

/// A message the connection sends back to its client.
pub enum Reply {
    /// A handler's answer, as it is.
    Send(Msg),
    /// The acknowledgement of the request, from `sender` to `receiver`, with
    /// sequence number 0.
    Ack { sender: u64, receiver: u64 },
    /// An error message from `sender` to `receiver` on node `node_id`.
    Error { sender: u64, receiver: u64, node_id: u32, text: String },
}

/// The error text sent when a handler refuses the sender's credentials.
pub open spec fn auth_failed_text() -> Seq<char> {
    "auth failed"@
}

/// The error text sent when a handler fails in a way no rule covers.
pub open spec fn unhandled_text() -> Seq<char> {
    "unhandled error"@
}

/// Whether `reply` is the error message from this node (`my_id`) to
/// `receiver` with the given text.
pub open spec fn is_error_reply(reply: Reply, my_id: u32, receiver: u64, text: Seq<char>) -> bool {
    reply matches Reply::Error { sender, receiver: r, node_id, text: t }
        && sender == my_id as u64 && r == receiver && node_id == my_id && t@ == text
}

/// What is sent back for one handler's outcome on `request`, and whether the
/// chain stops there (`true`) or the next handler is tried.
///
/// An answer stops the chain: a no-operation answer sends nothing, an
/// acknowledgement is sent as it is, any other answer is sent and followed by
/// the request's acknowledgement from this node to the request's sender. A
/// handler that does not serve the message sends nothing and the chain goes
/// on; refused credentials and unreadable messages send an error to the
/// sender and the chain goes on; any other failure sends an error and stops
/// the chain.
pub fn handler_step(request: &Msg, my_id: u32, outcome: Result<Msg, HandlerError>) -> (r: (
    Vec<Reply>,
    bool,
))
    ensures
        outcome is Ok <==> r.1 && !(outcome matches Err(HandlerError::Other(_))),
        outcome matches Err(HandlerError::Other(_)) ==> r.1,
        outcome matches Ok(m) && m.typ == TYPE_NOOP ==> r.0@.len() == 0,
        outcome matches Ok(m) && m.typ != TYPE_NOOP && m.typ == TYPE_ACK ==> r.0@.len() == 1
            && r.0@[0] == Reply::Send(outcome->Ok_0),
        outcome matches Ok(m) && m.typ != TYPE_NOOP && m.typ != TYPE_ACK ==> r.0@.len() == 2
            && r.0@[0] == Reply::Send(outcome->Ok_0) && r.0@[1] == (Reply::Ack {
            sender: my_id as u64,
            receiver: request.sender,
        }),
        outcome matches Err(HandlerError::NotMine) ==> !r.1 && r.0@.len() == 0,
        outcome matches Err(HandlerError::Auth(_)) ==> !r.1 && r.0@.len() == 1 && is_error_reply(
            r.0@[0],
            my_id,
            request.sender,
            auth_failed_text(),
        ),
        outcome matches Err(HandlerError::Parse(cause)) ==> !r.1 && r.0@.len() == 1
            && is_error_reply(r.0@[0], my_id, request.sender, cause@),
        outcome is Err && outcome->Err_0 is Auth ==> r.0@.len() == 1 && r.0@[0] is Error
            && r.0@[0]->Error_text@ == "auth failed"@ && r.0@[0]->Error_receiver == request.sender
            && r.0@[0]->Error_sender == my_id as u64 && r.0@[0]->Error_node_id == my_id,
        outcome is Err && outcome->Err_0 is Parse ==> r.0@.len() == 1 && r.0@[0] is Error
            && r.0@[0]->Error_text == outcome->Err_0->Parse_0 && r.0@[0]->Error_receiver
            == request.sender && r.0@[0]->Error_sender == my_id as u64 && r.0@[0]->Error_node_id
            == my_id,
        outcome is Err && outcome->Err_0 is Other ==> r.0@.len() == 1 && r.0@[0] is Error
            && r.0@[0]->Error_text@ == "unhandled error"@ && r.0@[0]->Error_receiver
            == request.sender && r.0@[0]->Error_sender == my_id as u64 && r.0@[0]->Error_node_id
            == my_id,
        outcome is Ok ==> r.1,
        outcome is Err && (outcome->Err_0 is NotMine || outcome->Err_0 is Auth
            || outcome->Err_0 is Parse) ==> !r.1,
        outcome is Err && outcome->Err_0 is Other ==> r.1,
        outcome matches Err(HandlerError::Other(_)) ==> r.0@.len() == 1 && is_error_reply(
            r.0@[0],
            my_id,
            request.sender,
            unhandled_text(),
        ),
{
    let mut replies: Vec<Reply> = Vec::new();
    match outcome {
        Ok(answer) => {
            if answer.typ == TYPE_NOOP {
            } else if answer.typ == TYPE_ACK {
                replies.push(Reply::Send(answer));
            } else {
                replies.push(Reply::Send(answer));
                replies.push(Reply::Ack { sender: my_id as u64, receiver: request.sender });
            }
            (replies, true)
        },
        Err(HandlerError::NotMine) => (replies, false),
        Err(HandlerError::Auth(_)) => {
            replies.push(
                Reply::Error {
                    sender: my_id as u64,
                    receiver: request.sender,
                    node_id: my_id,
                    text: "auth failed".to_owned(),
                },
            );
            (replies, false)
        },
        Err(HandlerError::Parse(cause)) => {
            replies.push(
                Reply::Error {
                    sender: my_id as u64,
                    receiver: request.sender,
                    node_id: my_id,
                    text: cause,
                },
            );
            (replies, false)
        },
        Err(HandlerError::Other(_)) => {
            replies.push(
                Reply::Error {
                    sender: my_id as u64,
                    receiver: request.sender,
                    node_id: my_id,
                    text: "unhandled error".to_owned(),
                },
            );
            (replies, true)
        },
    }
}

/// The message a reply to `request` stands for, made by node `my_id` at time
/// `now`: a handler's answer as it is; the request's acknowledgement
/// readdressed and with sequence number 0; an error message carrying the
/// error's text.
pub open spec fn spec_reply_msg(reply: Reply, request: MsgView, my_id: u32, now: u64) -> MsgView {
    match reply {
        Reply::Send(m) => m@,
        Reply::Ack { sender, receiver } => spec_ack(request, my_id, now).with_endpoints(
            sender,
            receiver,
        ).with_seq_num(0),
        Reply::Error { sender, receiver, node_id, text } => spec_error_msg(
            sender,
            receiver,
            node_id,
            vstd::utf8::encode_utf8(text@),
            now,
        ),
    }
}

/// A handler's answer goes out exactly as the handler made it, whatever the
/// request was: an acknowledgement stays an acknowledgement.
pub proof fn lemma_sent_answer_unchanged(answer: Msg, request: MsgView, my_id: u32, now: u64)
    ensures
        spec_reply_msg(Reply::Send(answer), request, my_id, now) == answer@,
        spec_reply_msg(Reply::Send(answer), request, my_id, now).typ == answer.typ,
{
}

/// The acknowledgement reply has the acknowledgement type, the addresses the
/// reply names and sequence number 0, whatever the request was.
pub proof fn lemma_ack_reply_fields(sender: u64, receiver: u64, request: MsgView, my_id: u32, now: u64)
    ensures
        ({
            let m = spec_reply_msg(Reply::Ack { sender, receiver }, request, my_id, now);
            m.typ == TYPE_ACK && m.sender == sender && m.receiver == receiver && m.seq_num == 0
                && m.node_id == my_id && m.timestamp == now
        }),
{
}

/// The message to send for a reply to `request`.
pub fn reply_msg(reply: Reply, request: &Msg, my_id: u32, now: u64) -> (m: Msg)
    ensures
        m@ == spec_reply_msg(reply, request@, my_id, now),
        reply is Send ==> m@ == reply->Send_0@,
        reply is Send ==> m.typ == reply->Send_0.typ && m.sender == reply->Send_0.sender
            && m.receiver == reply->Send_0.receiver && m.payload@ == reply->Send_0.payload@,
        reply is Ack ==> m.typ == TYPE_ACK && m.sender == reply->Ack_sender && m.receiver
            == reply->Ack_receiver && m.seq_num == 0 && m.node_id == my_id && m.timestamp == now,
        reply is Error ==> m.typ == TYPE_ERROR && m.sender == reply->Error_sender && m.receiver
            == reply->Error_receiver && m.node_id == reply->Error_node_id && m.seq_num == 0
            && m.timestamp == now && m.payload@ == vstd::utf8::encode_utf8(reply->Error_text@)
            && m.extension@.len() == 0,
{
    match reply {
        Reply::Send(m) => m,
        Reply::Ack { sender, receiver } => {
            let mut ack = request.ack(my_id, now);
            ack.sender = sender;
            ack.receiver = receiver;
            ack.seq_num = 0;
            ack
        },
        Reply::Error { sender, receiver, node_id, text } => error_msg(
            sender,
            receiver,
            node_id,
            text.as_str(),
            now,
        ),
    }
}

} // verus!
