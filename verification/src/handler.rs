//! The decisions of the message handlers: which messages each one claims and
//! what it answers.
use vstd::prelude::*;
use crate::ids::{is_group_msg, spec_is_group};
use crate::msg::{spec_ack, Msg, MsgView, TYPE_ACK, TYPE_AUTH, TYPE_ECHO};

verus! {

/// Why a handler did not answer a message.
pub enum HandlerError {
    /// The message is not of a type this handler serves.
    NotMine,
    /// The sender's credentials were refused, for the reason given.
    Auth(String),
    /// The message could not be read, for the reason given.
    Parse(String),
    /// Any other failure, described by the text given.
    Other(String),
}

/// What a handler answers to a message it serves.
pub enum Answer {
    /// This message.
    Message(Msg),
    /// The acknowledgement of the message it serves.
    Ack,
    /// The acknowledgement of the message it serves, with this type.
    AckTyped(u16),
}

/// Where a control message goes.
pub enum ControlRoute {
    /// To every member of the receiving group, across the cluster.
    Group,
    /// To this receiver, connected to this node, and to the message store.
    LocalUser { receiver: u64 },
    /// To the node that serves the receiver.
    RemoteNode { node_id: u32 },
}

/// Control messages have types from 64 up to, not including, 96.
pub open spec fn spec_is_control(typ: u16) -> bool {
    64 <= typ < 96
}

/// The echo handler: it serves echo messages only. An echo addressed to no
/// one (receiver 0) comes back as it is, with sender 0 and the time stamp
/// `now`; any other echo is acknowledged.
pub fn echo(msg: &Msg, now: u64) -> (r: Result<Answer, HandlerError>)
    ensures
        msg.typ != TYPE_ECHO ==> r is Err && r->Err_0 is NotMine,
        msg.typ == TYPE_ECHO && msg.receiver == 0 ==> (r matches Ok(Answer::Message(m))
            && m@ == msg@.with_endpoints(0, msg.receiver).with_timestamp(now)),
        msg.typ == TYPE_ECHO && msg.receiver != 0 ==> r matches Ok(Answer::Ack),
        msg.typ == TYPE_ECHO && msg.receiver == 0 ==> r is Ok && r->Ok_0 is Message && ({
            let m = r->Ok_0->Message_0;
            m.typ == msg.typ && m.sender == 0 && m.receiver == 0 && m.timestamp == now && m.node_id
                == msg.node_id && m.seq_num == msg.seq_num && m.payload@ == msg.payload@
                && m.extension@ == msg.extension@
        }),
{
    if msg.typ != TYPE_ECHO {
        return Err(HandlerError::NotMine);
    }
    if msg.receiver == 0 {
        let mut res = msg.duplicate();
        res.receiver = msg.receiver;
        res.sender = 0;
        res.timestamp = now;
        Ok(Answer::Message(res))
    } else {
        Ok(Answer::Ack)
    }
}

/// The first half of the authentication handler: it serves authentication
/// messages only, and for those names the user whose token is to be read.
pub fn auth_gate(msg: &Msg) -> (r: Result<u64, HandlerError>)
    ensures
        msg.typ != TYPE_AUTH ==> r is Err && r->Err_0 is NotMine,
        msg.typ == TYPE_AUTH ==> r == Ok::<u64, HandlerError>(msg.sender),
{
    if msg.typ != TYPE_AUTH {
        Err(HandlerError::NotMine)
    } else {
        Ok(msg.sender)
    }
}

/// The second half of the authentication handler: a refused token is an
/// authentication error with the refusal's text; an accepted one is answered
/// by an acknowledgement of the authentication type.
pub fn auth_verdict(check: Result<(), String>) -> (r: Result<Answer, HandlerError>)
    ensures
        check is Ok ==> (r matches Ok(Answer::AckTyped(t)) && t == TYPE_AUTH),
        check matches Err(e) ==> (r matches Err(HandlerError::Auth(text)) && text == e),
{
    match check {
        Ok(()) => Ok(Answer::AckTyped(TYPE_AUTH)),
        Err(e) => Err(HandlerError::Auth(e)),
    }
}

/// The control handler: it serves control messages only. A message that
/// belongs to this node goes to its group when the receiver is a group, to
/// its receiver otherwise; a message of another node goes to that node.
pub fn route_control(msg: &Msg, my_id: u32) -> (r: Result<ControlRoute, HandlerError>)
    ensures
        !spec_is_control(msg.typ) ==> r is Err && r->Err_0 is NotMine,
        spec_is_control(msg.typ) && msg.node_id == my_id && spec_is_group(msg.receiver)
            ==> r matches Ok(ControlRoute::Group),
        spec_is_control(msg.typ) && msg.node_id == my_id && !spec_is_group(msg.receiver)
            ==> (r matches Ok(ControlRoute::LocalUser { receiver }) && receiver == msg.receiver),
        spec_is_control(msg.typ) && msg.node_id != my_id
            ==> (r matches Ok(ControlRoute::RemoteNode { node_id }) && node_id == msg.node_id),
        !(64 <= msg.typ && msg.typ < 96) ==> r is Err && r->Err_0 is NotMine,
        64 <= msg.typ && msg.typ < 96 && msg.node_id != my_id ==> r is Ok && r->Ok_0 is RemoteNode
            && r->Ok_0->node_id == msg.node_id,
        64 <= msg.typ && msg.typ < 96 && msg.node_id == my_id && msg.receiver
            >= crate::ids::GROUP_ID_THRESHOLD ==> r is Ok && r->Ok_0 is Group,
        64 <= msg.typ && msg.typ < 96 && msg.node_id == my_id && msg.receiver
            < crate::ids::GROUP_ID_THRESHOLD ==> r is Ok && r->Ok_0 is LocalUser
            && r->Ok_0->receiver == msg.receiver,
{
    if !(msg.typ >= 64 && msg.typ < 96) {
        return Err(HandlerError::NotMine);
    }
    if msg.node_id == my_id {
        if is_group_msg(msg.receiver) {
            Ok(ControlRoute::Group)
        } else {
            Ok(ControlRoute::LocalUser { receiver: msg.receiver })
        }
    } else {
        Ok(ControlRoute::RemoteNode { node_id: msg.node_id })
    }
}

/// The message an answer to `request` stands for, made by node `my_id` at
/// time `now`.
pub open spec fn spec_answer_msg(answer: Answer, request: MsgView, my_id: u32, now: u64) -> MsgView {
    match answer {
        Answer::Message(m) => m@,
        Answer::Ack => spec_ack(request, my_id, now),
        Answer::AckTyped(typ) => MsgView { typ, ..spec_ack(request, my_id, now) },
    }
}

/// A handler's own message goes out as it is: nothing of it is dropped or
/// rewritten, whatever the request was.
pub proof fn lemma_message_answer_unchanged(m: Msg, request: MsgView, my_id: u32, now: u64)
    ensures
        spec_answer_msg(Answer::Message(m), request, my_id, now) == m@,
        spec_answer_msg(Answer::Message(m), request, my_id, now).payload == m.payload@,
{
}

/// An echo to no one is sent back with the request's payload and extension,
/// byte for byte, from no one, stamped `now`.
pub proof fn lemma_echo_keeps_bytes(request: Msg, echoed: Msg, my_id: u32, now: u64)
    requires
        request.typ == TYPE_ECHO,
        request.receiver == 0,
        echoed@ == request@.with_endpoints(0, request.receiver).with_timestamp(now),
    ensures
        ({
            let sent = spec_answer_msg(Answer::Message(echoed), request@, my_id, now);
            sent.payload == request.payload@ && sent.extension == request.extension@ && sent.sender
                == 0 && sent.receiver == 0 && sent.timestamp == now && sent.typ == TYPE_ECHO
        }),
{
}

/// The message to send for a handler's answer to `request`.
pub fn answer_msg(answer: Answer, request: &Msg, my_id: u32, now: u64) -> (m: Msg)
    ensures
        m@ == spec_answer_msg(answer, request@, my_id, now),
        answer is Message ==> m@ == answer->Message_0@,
        answer is Message ==> m.payload@ == answer->Message_0.payload@ && m.extension@
            == answer->Message_0.extension@ && m.typ == answer->Message_0.typ && m.sender
            == answer->Message_0.sender && m.receiver == answer->Message_0.receiver
            && m.timestamp == answer->Message_0.timestamp,
        answer is Ack ==> m.typ == TYPE_ACK && m.sender == request.receiver && m.receiver
            == request.sender && m.node_id == my_id && m.seq_num == request.seq_num
            && m.timestamp == now,
        answer is AckTyped ==> m.typ == answer->AckTyped_0 && m.sender == request.receiver
            && m.receiver == request.sender && m.node_id == my_id && m.seq_num
            == request.seq_num && m.timestamp == now,
{
    match answer {
        Answer::Message(m) => m,
        Answer::Ack => request.ack(my_id, now),
        Answer::AckTyped(typ) => {
            let mut ack = request.ack(my_id, now);
            ack.typ = typ;
            ack
        },
    }
}

} // verus!
