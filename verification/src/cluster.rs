//! The scheduler's register of the nodes that have joined the cluster: each
//! node id falls in the range of one kind of node.
use vstd::prelude::*;
use std::collections::HashSet;

verus! {

broadcast use vstd::std_specs::hash::group_hash_axioms;

/// Where the ranges of node ids begin: sequence-number nodes below
/// `msgprocessor_begin`, message processors from there, message nodes from
/// `message_begin`, schedulers from `scheduler_begin`.
pub struct NodeIdLayout {
    pub msgprocessor_begin: u32,
    pub message_begin: u32,
    pub scheduler_begin: u32,
}

/// The kinds of node of the cluster.
#[derive(PartialEq, Eq, Structural, Clone, Copy, Debug)]
pub enum NodeKind {
    Message,
    Scheduler,
    Seqnum,
    Msgprocessor,
}

/// The kind of the node `id`: a message node from `message_begin` up to,
/// not including, `scheduler_begin`; a scheduler from `scheduler_begin` up;
/// below that, a sequence-number node under `msgprocessor_begin` and a
/// message processor otherwise.
pub open spec fn spec_node_kind(id: u32, layout: NodeIdLayout) -> NodeKind {
    if id >= layout.message_begin && id < layout.scheduler_begin {
        NodeKind::Message
    } else if id >= layout.scheduler_begin {
        NodeKind::Scheduler
    } else if id < layout.msgprocessor_begin {
        NodeKind::Seqnum
    } else {
        NodeKind::Msgprocessor
    }
}

/// The kind of the node `id` under `layout`.
pub fn node_kind(id: u32, layout: &NodeIdLayout) -> (kind: NodeKind)
    ensures
        kind == spec_node_kind(id, *layout),
        layout.message_begin <= id && id < layout.scheduler_begin ==> kind == NodeKind::Message,
        layout.scheduler_begin <= id ==> kind == NodeKind::Scheduler,
        !(layout.message_begin <= id) && id < layout.scheduler_begin && id
            < layout.msgprocessor_begin ==> kind == NodeKind::Seqnum,
        !(layout.message_begin <= id) && id < layout.scheduler_begin && layout.msgprocessor_begin
            <= id ==> kind == NodeKind::Msgprocessor,
{
    if id >= layout.message_begin && id < layout.scheduler_begin {
        NodeKind::Message
    } else if id >= layout.scheduler_begin {
        NodeKind::Scheduler
    } else if id < layout.msgprocessor_begin {
        NodeKind::Seqnum
    } else {
        NodeKind::Msgprocessor
    }
}

/// The nodes known to the scheduler, one set per kind that it keeps track
/// of; schedulers are not recorded.
pub struct NodeDirectory {
    pub message_nodes: HashSet<u32>,
    pub seqnum_nodes: HashSet<u32>,
    pub msgprocessor_nodes: HashSet<u32>,
}

/// The sets of a node directory.
pub struct NodeDirectoryView {
    pub message_nodes: Set<u32>,
    pub seqnum_nodes: Set<u32>,
    pub msgprocessor_nodes: Set<u32>,
}

impl View for NodeDirectory {
    type V = NodeDirectoryView;

    open spec fn view(&self) -> NodeDirectoryView {
        NodeDirectoryView {
            message_nodes: self.message_nodes@,
            seqnum_nodes: self.seqnum_nodes@,
            msgprocessor_nodes: self.msgprocessor_nodes@,
        }
    }
}

/// The directory after a node of the given kind and id has joined.
pub open spec fn spec_register(d: NodeDirectoryView, id: u32, kind: NodeKind) -> NodeDirectoryView {
    match kind {
        NodeKind::Message => NodeDirectoryView { message_nodes: d.message_nodes.insert(id), ..d },
        NodeKind::Seqnum => NodeDirectoryView { seqnum_nodes: d.seqnum_nodes.insert(id), ..d },
        NodeKind::Msgprocessor => NodeDirectoryView {
            msgprocessor_nodes: d.msgprocessor_nodes.insert(id),
            ..d
        },
        NodeKind::Scheduler => d,
    }
}

impl NodeDirectory {
    /// A directory that knows of no node.
    pub fn new() -> (d: NodeDirectory)
        ensures
            d@.message_nodes.is_empty(),
            d@.seqnum_nodes.is_empty(),
            d@.msgprocessor_nodes.is_empty(),
    {
        NodeDirectory {
            message_nodes: HashSet::new(),
            seqnum_nodes: HashSet::new(),
            msgprocessor_nodes: HashSet::new(),
        }
    }

    /// Records a node that has joined, in the set of its kind, and gives its
    /// kind.
    pub fn register(&mut self, id: u32, layout: &NodeIdLayout) -> (kind: NodeKind)
        ensures
            kind == spec_node_kind(id, *layout),
            final(self)@ == spec_register(old(self)@, id, kind),
    {
        let kind = node_kind(id, layout);
        match kind {
            NodeKind::Message => {
                self.message_nodes.insert(id);
            },
            NodeKind::Scheduler => {},
            NodeKind::Seqnum => {
                self.seqnum_nodes.insert(id);
            },
            NodeKind::Msgprocessor => {
                self.msgprocessor_nodes.insert(id);
            },
        }
        kind
    }
}

/// Registering a node forgets no node registered before: every set only
/// grows, and the node's own set gains exactly the node.
pub proof fn lemma_register_keeps_known_nodes(d: NodeDirectoryView, id: u32, kind: NodeKind, other: u32)
    ensures
        d.message_nodes.contains(other) ==> spec_register(d, id, kind).message_nodes.contains(other),
        d.seqnum_nodes.contains(other) ==> spec_register(d, id, kind).seqnum_nodes.contains(other),
        d.msgprocessor_nodes.contains(other) ==> spec_register(d, id, kind).msgprocessor_nodes.contains(other),
        spec_register(d, id, kind).message_nodes.contains(other) ==> d.message_nodes.contains(other)
            || (other == id && kind == NodeKind::Message),
        spec_register(d, id, kind).seqnum_nodes.contains(other) ==> d.seqnum_nodes.contains(other)
            || (other == id && kind == NodeKind::Seqnum),
        spec_register(d, id, kind).msgprocessor_nodes.contains(other) ==> d.msgprocessor_nodes.contains(other)
            || (other == id && kind == NodeKind::Msgprocessor),
        kind == NodeKind::Message ==> spec_register(d, id, kind).message_nodes.contains(id),
        kind == NodeKind::Seqnum ==> spec_register(d, id, kind).seqnum_nodes.contains(id),
        kind == NodeKind::Msgprocessor ==> spec_register(d, id, kind).msgprocessor_nodes.contains(id),
{
}

/// A registered node is found in the set of its kind (a scheduler in none),
/// while the other sets are left as they were.
pub proof fn lemma_register_places_node(d: NodeDirectoryView, id: u32, layout: NodeIdLayout)
    ensures
        ({
            let kind = spec_node_kind(id, layout);
            let after = spec_register(d, id, kind);
            &&& kind == NodeKind::Message ==> after.message_nodes.contains(id)
                && after.seqnum_nodes == d.seqnum_nodes
                && after.msgprocessor_nodes == d.msgprocessor_nodes
            &&& kind == NodeKind::Seqnum ==> after.seqnum_nodes.contains(id)
                && after.message_nodes == d.message_nodes
                && after.msgprocessor_nodes == d.msgprocessor_nodes
            &&& kind == NodeKind::Msgprocessor ==> after.msgprocessor_nodes.contains(id)
                && after.message_nodes == d.message_nodes
                && after.seqnum_nodes == d.seqnum_nodes
            &&& kind == NodeKind::Scheduler ==> after == d
        }),
{
}

} // verus!
