//! What the storage task records of each chat message: the message under its
//! conversation, ordered by sequence number, and the sender in the
//! receiver's inbox, ordered by time.
use vstd::prelude::*;
use crate::ids::{is_group_msg, pair_key, spec_conversation, spec_is_group, who_we_are};
use crate::msg::Msg;

verus! {

/// A message handed to the storage task.
pub enum IoTaskMsg {
    /// A message between two users, or to a group, as it was sent.
    SingleChat(Msg),
    /// A copy of a group message, made for the member `real_receiver`.
    GroupChat(Msg, u64),
}

/// The records the storage task writes for one message.
pub struct PersistPlan {
    /// The conversation under which the message is cached.
    pub conversation: u128,
    /// The message's rank in that cache: its sequence number.
    pub seq_num: u64,
    /// Whose inbox is touched: the message's receiver.
    pub inbox_owner: u64,
    /// Who is put in that inbox: the message's sender.
    pub inbox_member: u64,
    /// The rank of that inbox entry: the message's time stamp.
    pub timestamp: u64,
}

impl IoTaskMsg {
    /// The message carried.
    pub open spec fn message(self) -> Msg {
        match self {
            IoTaskMsg::SingleChat(m) => m,
            IoTaskMsg::GroupChat(m, _) => m,
        }
    }
}

/// The conversation a stored message belongs to: the group's own when the
/// message's receiver is a group; otherwise the pair of the sender and the
/// receiver it was meant for (the member, for a copy of a group message).
pub open spec fn spec_stored_conversation(m: IoTaskMsg) -> int {
    match m {
        IoTaskMsg::SingleChat(msg) => spec_conversation(msg.sender, msg.receiver),
        IoTaskMsg::GroupChat(msg, real_receiver) => if spec_is_group(msg.receiver) {
            pair_key(msg.receiver, msg.receiver)
        } else {
            pair_key(msg.sender, real_receiver)
        },
    }
}

/// The records to write for one message.
pub fn persist_plan(m: &IoTaskMsg) -> (plan: PersistPlan)
    ensures
        plan.conversation == spec_stored_conversation(*m),
        plan.seq_num == m.message().seq_num,
        plan.inbox_owner == m.message().receiver,
        plan.inbox_member == m.message().sender,
        plan.timestamp == m.message().timestamp,
        m is SingleChat && m->SingleChat_0.receiver >= crate::ids::GROUP_ID_THRESHOLD
            ==> plan.conversation == m->SingleChat_0.receiver * 0x1_0000_0000_0000_0000
            + m->SingleChat_0.receiver,
        m is SingleChat && m->SingleChat_0.receiver < crate::ids::GROUP_ID_THRESHOLD
            ==> plan.conversation == crate::ids::min_id(m->SingleChat_0.sender, m->SingleChat_0.receiver)
            * 0x1_0000_0000_0000_0000 + crate::ids::max_id(m->SingleChat_0.sender, m->SingleChat_0.receiver),
        m is GroupChat && m->GroupChat_0.receiver >= crate::ids::GROUP_ID_THRESHOLD
            ==> plan.conversation == m->GroupChat_0.receiver * 0x1_0000_0000_0000_0000
            + m->GroupChat_0.receiver,
        m is GroupChat && m->GroupChat_0.receiver < crate::ids::GROUP_ID_THRESHOLD
            ==> plan.conversation == crate::ids::min_id(m->GroupChat_0.sender, m->GroupChat_1)
            * 0x1_0000_0000_0000_0000 + crate::ids::max_id(m->GroupChat_0.sender, m->GroupChat_1),
        m is SingleChat ==> plan.seq_num == m->SingleChat_0.seq_num && plan.inbox_owner
            == m->SingleChat_0.receiver && plan.inbox_member == m->SingleChat_0.sender
            && plan.timestamp == m->SingleChat_0.timestamp,
        m is GroupChat ==> plan.seq_num == m->GroupChat_0.seq_num && plan.inbox_owner
            == m->GroupChat_0.receiver && plan.inbox_member == m->GroupChat_0.sender
            && plan.timestamp == m->GroupChat_0.timestamp,
{
    let (conversation, msg): (u128, &Msg) = match m {
        IoTaskMsg::SingleChat(msg) => {
            if is_group_msg(msg.receiver) {
                (who_we_are(msg.receiver, msg.receiver), msg)
            } else {
                (who_we_are(msg.sender, msg.receiver), msg)
            }
        },
        IoTaskMsg::GroupChat(msg, real_receiver) => {
            if is_group_msg(msg.receiver) {
                (who_we_are(msg.receiver, msg.receiver), msg)
            } else {
                (who_we_are(msg.sender, *real_receiver), msg)
            }
        },
    };
    PersistPlan {
        conversation,
        seq_num: msg.seq_num,
        inbox_owner: msg.receiver,
        inbox_member: msg.sender,
        timestamp: msg.timestamp,
    }
}

/// A message is cached under the very conversation whose counter numbered
/// it.
pub proof fn lemma_cache_matches_counter(msg: Msg)
    ensures
        spec_stored_conversation(IoTaskMsg::SingleChat(msg)) == spec_conversation(
            msg.sender,
            msg.receiver,
        ),
{
}

/// The copy of a group message made for a member is cached under the pair of
/// the group and that member.
pub proof fn lemma_member_copy_conversation(msg: Msg, member: u64)
    requires
        spec_is_group(msg.sender),
        msg.receiver == member,
        !spec_is_group(member),
    ensures
        spec_stored_conversation(IoTaskMsg::GroupChat(msg, member)) == pair_key(msg.sender, member),
{
}

} // verus!
