use message::cluster::{node_kind, NodeDirectory, NodeIdLayout, NodeKind};
use message::group::{fan_out, GroupDirectory};
use message::ids::GROUP_ID_THRESHOLD;
use message::msg::Msg;

fn group_msg(group: u64) -> Msg {
    Msg { typ: 32, sender: 5, receiver: group, node_id: 2, seq_num: 9, timestamp: 77, payload: b"hi all".to_vec(), extension: b"5".to_vec() }
}

#[test]
fn fan_out_makes_one_copy_per_member() {
    let group = GROUP_ID_THRESHOLD + 3;
    let copies = fan_out(&group_msg(group), &vec![11, 12, 13]);
    assert_eq!(copies.len(), 3);
    for (copy, member) in copies.iter().zip([11u64, 12, 13]) {
        assert_eq!(copy.sender, group);
        assert_eq!(copy.receiver, member);
        assert_eq!((copy.typ, copy.node_id, copy.seq_num, copy.timestamp), (32, 2, 9, 77));
        assert_eq!(copy.payload, b"hi all".to_vec());
        assert_eq!(copy.extension, b"5".to_vec());
    }
    assert!(fan_out(&group_msg(group), &vec![]).is_empty());
}

#[test]
fn directory_gives_back_what_was_loaded() {
    let group = GROUP_ID_THRESHOLD + 3;
    let mut d = GroupDirectory::new();
    assert_eq!(d.members(group), None);
    d.load(group, vec![1, 2]);
    assert_eq!(d.members(group), Some(vec![1, 2]));
    d.load(group, vec![3]);
    assert_eq!(d.members(group), Some(vec![3]));
    assert_eq!(d.members(group + 1), None);
}

#[test]
fn delivery_needs_a_known_group() {
    let group = GROUP_ID_THRESHOLD + 3;
    let mut d = GroupDirectory::new();
    assert!(d.deliver(group, &group_msg(group)).is_none());
    d.load(group, vec![21, 22]);
    let copies = d.deliver(group, &group_msg(group)).unwrap();
    assert_eq!(copies.iter().map(|c| c.receiver).collect::<Vec<_>>(), vec![21, 22]);
    assert!(copies.iter().all(|c| c.sender == group));
}

fn layout() -> NodeIdLayout {
    NodeIdLayout { msgprocessor_begin: 100, message_begin: 200, scheduler_begin: 300 }
}

#[test]
fn node_ids_fall_in_ranges() {
    let l = layout();
    assert_eq!(node_kind(0, &l), NodeKind::Seqnum);
    assert_eq!(node_kind(99, &l), NodeKind::Seqnum);
    assert_eq!(node_kind(100, &l), NodeKind::Msgprocessor);
    assert_eq!(node_kind(199, &l), NodeKind::Msgprocessor);
    assert_eq!(node_kind(200, &l), NodeKind::Message);
    assert_eq!(node_kind(299, &l), NodeKind::Message);
    assert_eq!(node_kind(300, &l), NodeKind::Scheduler);
    assert_eq!(node_kind(u32::MAX, &l), NodeKind::Scheduler);
}

#[test]
fn registered_nodes_land_in_their_set() {
    let l = layout();
    let mut d = NodeDirectory::new();
    assert_eq!(d.register(250, &l), NodeKind::Message);
    assert_eq!(d.register(50, &l), NodeKind::Seqnum);
    assert_eq!(d.register(150, &l), NodeKind::Msgprocessor);
    assert_eq!(d.register(350, &l), NodeKind::Scheduler);
    assert!(d.message_nodes.contains(&250) && d.message_nodes.len() == 1);
    assert!(d.seqnum_nodes.contains(&50) && d.seqnum_nodes.len() == 1);
    assert!(d.msgprocessor_nodes.contains(&150) && d.msgprocessor_nodes.len() == 1);
    assert!(!d.message_nodes.contains(&350) && !d.seqnum_nodes.contains(&350) && !d.msgprocessor_nodes.contains(&350));
}
