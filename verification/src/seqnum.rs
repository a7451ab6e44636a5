//! Which messages carry a per-conversation sequence number, the counter that
//! numbers them, and the numbering itself.
use vstd::prelude::*;
use crate::ids::{conversation_key, spec_conversation};
use crate::msg::Msg;

verus! {

/// Chat messages, control messages and business messages are numbered; the
/// other types are not.
pub open spec fn spec_carries_seq_num(typ: u16) -> bool {
    ||| 32 <= typ < 64
    ||| 64 <= typ < 96
    ||| 128 <= typ < 160
}

/// Whether a message of this type gets a sequence number.
pub fn carries_seq_num(typ: u16) -> (r: bool)
    ensures
        r == spec_carries_seq_num(typ),
        32 <= typ && typ < 96 ==> r,
        128 <= typ && typ < 160 ==> r,
        typ < 32 ==> !r,
        96 <= typ && typ < 128 ==> !r,
        160 <= typ ==> !r,
{
    typ >= 32 && typ < 64 || typ >= 64 && typ < 96 || typ >= 128 && typ < 160
}

/// The counter a message is numbered from: the key of its conversation when
/// its type is numbered, none otherwise.
pub fn seq_num_key(msg: &Msg) -> (key: Option<u128>)
    ensures
        key == (if spec_carries_seq_num(msg.typ) {
            Some(spec_conversation(msg.sender, msg.receiver) as u128)
        } else {
            None
        }),
        (32 <= msg.typ && msg.typ < 96) || (128 <= msg.typ && msg.typ < 160) ==> key
            == Some(spec_conversation(msg.sender, msg.receiver) as u128),
        !((32 <= msg.typ && msg.typ < 96) || (128 <= msg.typ && msg.typ < 160)) ==> key is None,
{
    if carries_seq_num(msg.typ) {
        Some(conversation_key(msg.sender, msg.receiver))
    } else {
        None
    }
}

/// Numbers a message: its sequence number becomes `seq_num`, nothing else
/// changes.
pub fn assign_seq_num(msg: &mut Msg, seq_num: u64)
    ensures
        final(msg)@ == old(msg)@.with_seq_num(seq_num),
        final(msg).seq_num == seq_num,
        final(msg).typ == old(msg).typ && final(msg).sender == old(msg).sender
            && final(msg).receiver == old(msg).receiver && final(msg).node_id == old(msg).node_id
            && final(msg).timestamp == old(msg).timestamp && final(msg).payload@ == old(
            msg,
        ).payload@ && final(msg).extension@ == old(msg).extension@,
{
    msg.seq_num = seq_num;
}

/// Every chat type (32 to 63), control type (64 to 95) and business type
/// (128 to 159) is numbered, and no other type is.
pub proof fn lemma_numbered_ranges()
    ensures
        forall|t: u16| 32 <= t < 64 ==> #[trigger] spec_carries_seq_num(t),
        forall|t: u16| 64 <= t < 96 ==> #[trigger] spec_carries_seq_num(t),
        forall|t: u16| 128 <= t < 160 ==> #[trigger] spec_carries_seq_num(t),
        forall|t: u16| t < 32 ==> !#[trigger] spec_carries_seq_num(t),
        forall|t: u16| 96 <= t < 128 ==> !#[trigger] spec_carries_seq_num(t),
        forall|t: u16| 160 <= t ==> !#[trigger] spec_carries_seq_num(t),
{
}

/// A reply between the same two users is numbered from the same counter as
/// the message it answers.
pub proof fn lemma_reply_shares_counter(sender: u64, receiver: u64)
    requires
        !crate::ids::spec_is_group(sender),
        !crate::ids::spec_is_group(receiver),
    ensures
        spec_conversation(sender, receiver) == spec_conversation(receiver, sender),
{
}

/// Every message to a group is numbered from the group's counter, whoever
/// sent it.
pub proof fn lemma_group_counter_ignores_sender(s1: u64, s2: u64, group: u64)
    requires
        crate::ids::spec_is_group(group),
    ensures
        spec_conversation(s1, group) == spec_conversation(s2, group),
{
}

} // verus!
