//! Group messages: the member lists of the groups this node serves, and the
//! copies of a group message that go to each member.
use vstd::prelude::*;
use dashmap::DashMap;
use crate::msg::{Msg, MsgView};

verus! {

#[verifier::external_type_specification]
#[verifier::external_body]
#[verifier::reject_recursive_types(K)]
#[verifier::reject_recursive_types(V)]
#[verifier::reject_recursive_types(S)]
pub struct ExDashMap<K, V, S>(DashMap<K, V, S>);

/// The member lists that a map from group ids holds.
pub uninterp spec fn member_lists(m: DashMap<u64, Vec<u64>>) -> Map<u64, Seq<u64>>;

/// `DashMap::new`: the new map holds nothing.
#[verifier::external_body]
fn lists_new() -> (lists: DashMap<u64, Vec<u64>>)
    ensures
        member_lists(lists) =~= Map::empty(),
{
    DashMap::new()
}

/// `DashMap::insert`: the group's list becomes `members`, the other lists
/// stay; the list it had before, if any, is handed back.
#[verifier::external_body]
fn lists_insert(lists: &mut DashMap<u64, Vec<u64>>, group_id: u64, members: Vec<u64>) -> (previous:
    Option<Vec<u64>>)
    ensures
        member_lists(*final(lists)) == member_lists(*old(lists)).insert(group_id, members@),
        previous is Some <==> member_lists(*old(lists)).contains_key(group_id),
        previous matches Some(p) ==> p@ == member_lists(*old(lists))[group_id],
{
    lists.insert(group_id, members)
}

/// `DashMap::get`, with the entry's list copied out: the group's list, or
/// none when the map holds no list for the group.
#[verifier::external_body]
fn lists_get(lists: &DashMap<u64, Vec<u64>>, group_id: u64) -> (members: Option<Vec<u64>>)
    ensures
        members is Some <==> member_lists(*lists).contains_key(group_id),
        members matches Some(v) ==> v@ == member_lists(*lists)[group_id],
{
    lists.get(&group_id).map(|entry| entry.value().clone())
}

/// The members of each group this node knows of. The directory owns its map
/// outright, so its lists change only through `&mut` calls on it.
pub struct GroupDirectory {
    lists: DashMap<u64, Vec<u64>>,
}

impl View for GroupDirectory {
    type V = Map<u64, Seq<u64>>;

    closed spec fn view(&self) -> Map<u64, Seq<u64>> {
        member_lists(self.lists)
    }
}

/// The copy of a group message that goes to `member`: sent by the group
/// (the original receiver), received by the member, otherwise unchanged.
pub open spec fn member_copy(msg: MsgView, member: u64) -> MsgView {
    msg.with_endpoints(msg.receiver, member)
}

impl GroupDirectory {
    /// A directory that knows of no group.
    pub fn new() -> (d: GroupDirectory)
        ensures
            d@ == Map::<u64, Seq<u64>>::empty(),
    {
        GroupDirectory { lists: lists_new() }
    }

    /// Records the member list of a group, replacing the one it had.
    pub fn load(&mut self, group_id: u64, members: Vec<u64>)
        ensures
            final(self)@ == old(self)@.insert(group_id, members@),
    {
        let _ = lists_insert(&mut self.lists, group_id, members);
    }

    /// The member list of a group, if the directory knows of the group.
    pub fn members(&self, group_id: u64) -> (members: Option<Vec<u64>>)
        ensures
            members is Some <==> self@.contains_key(group_id),
            members matches Some(v) ==> v@ == self@[group_id],
    {
        lists_get(&self.lists, group_id)
    }

    /// The copies of a group message for the members of `group_id`, in the
    /// order of its list; none when the directory does not know the group.
    pub fn deliver(&self, group_id: u64, msg: &Msg) -> (copies: Option<Vec<Msg>>)
        ensures
            copies is Some <==> self@.contains_key(group_id),
            copies matches Some(c) ==> c@.len() == self@[group_id].len() && forall|i: int|
                0 <= i < c@.len() ==> #[trigger] c@[i]@ == member_copy(msg@, self@[group_id][i]),
            copies matches Some(c) ==> forall|i: int|
                0 <= i < c@.len() ==> (#[trigger] c@[i]).sender == msg.receiver && c@[i].receiver
                    == self@[group_id][i] && c@[i].payload@ == msg.payload@ && c@[i].typ == msg.typ,
    {
        match self.members(group_id) {
            Some(members) => Some(fan_out(msg, &members)),
            None => None,
        }
    }
}

/// One copy of a group message per member, in the members' order: each
/// is sent by the group and received by its member.
pub fn fan_out(msg: &Msg, members: &Vec<u64>) -> (copies: Vec<Msg>)
    ensures
        copies@.len() == members@.len(),
        forall|i: int| 0 <= i < copies@.len() ==> #[trigger] copies@[i]@ == member_copy(msg@, members@[i]),
        forall|i: int|
            0 <= i < copies@.len() ==> (#[trigger] copies@[i]).sender == msg.receiver
                && copies@[i].receiver == members@[i] && copies@[i].typ == msg.typ
                && copies@[i].node_id == msg.node_id && copies@[i].seq_num == msg.seq_num
                && copies@[i].timestamp == msg.timestamp && copies@[i].payload@ == msg.payload@
                && copies@[i].extension@ == msg.extension@,
{
    let mut copies: Vec<Msg> = Vec::new();
    let mut i: usize = 0;
    while i < members.len()
        invariant
            i <= members@.len(),
            copies@.len() == i,
            forall|j: int| 0 <= j < i ==> #[trigger] copies@[j]@ == member_copy(msg@, members@[j]),
        decreases members@.len() - i,
    {
        let mut copy = msg.duplicate();
        copy.sender = msg.receiver;
        copy.receiver = members[i];
        copies.push(copy);
        i = i + 1;
    }
    assert forall|i: int| 0 <= i < copies@.len() implies (#[trigger] copies@[i]).sender
        == msg.receiver && copies@[i].receiver == members@[i] && copies@[i].typ == msg.typ
        && copies@[i].node_id == msg.node_id && copies@[i].seq_num == msg.seq_num
        && copies@[i].timestamp == msg.timestamp && copies@[i].payload@ == msg.payload@
        && copies@[i].extension@ == msg.extension@ by {
        assert(copies@[i]@ == member_copy(msg@, members@[i]));
    }
    copies
}

} // verus!
