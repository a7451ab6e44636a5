//! Verified core of the message node of an instant-messaging server:
//! conversation identities, sequence-number assignment, handler dispatch,
//! the connection session protocol, group fan-out, the storage plan of chat
//! messages, and the scheduler's register of cluster nodes.

pub mod ids;
pub mod msg;
pub mod seqnum;
pub mod handler;
pub mod dispatch;
pub mod session;
pub mod group;
pub mod persist;
pub mod cluster;
