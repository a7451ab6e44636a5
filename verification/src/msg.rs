//! The message as the node's logic sees it: a header of integers and two
//! byte sections.
use vstd::prelude::*;

verus! {

/// Wire value of the acknowledgement type.
pub const TYPE_ACK: u16 = 1;

/// Wire value of the authentication type.
pub const TYPE_AUTH: u16 = 96;

/// Wire value of the echo type.
pub const TYPE_ECHO: u16 = 98;

/// Wire value of the error type.
pub const TYPE_ERROR: u16 = 99;

/// Wire value of the no-operation type: a handler answer that is not sent.
pub const TYPE_NOOP: u16 = 160;

/// A message: its type's wire value, its endpoints, the node it belongs to,
/// its sequence number and time stamp, its payload and extension bytes.
pub struct Msg {
    pub typ: u16,
    pub sender: u64,
    pub receiver: u64,
    pub node_id: u32,
    pub seq_num: u64,
    pub timestamp: u64,
    pub payload: Vec<u8>,
    pub extension: Vec<u8>,
}

/// The mathematical value of a message.
pub struct MsgView {
    pub typ: u16,
    pub sender: u64,
    pub receiver: u64,
    pub node_id: u32,
    pub seq_num: u64,
    pub timestamp: u64,
    pub payload: Seq<u8>,
    pub extension: Seq<u8>,
}

impl View for Msg {
    type V = MsgView;

    open spec fn view(&self) -> MsgView {
        MsgView {
            typ: self.typ,
            sender: self.sender,
            receiver: self.receiver,
            node_id: self.node_id,
            seq_num: self.seq_num,
            timestamp: self.timestamp,
            payload: self.payload@,
            extension: self.extension@,
        }
    }
}

impl MsgView {
    /// The same message with other endpoints.
    pub open spec fn with_endpoints(self, sender: u64, receiver: u64) -> MsgView {
        MsgView { sender, receiver, ..self }
    }

    /// The same message with another sequence number.
    pub open spec fn with_seq_num(self, seq_num: u64) -> MsgView {
        MsgView { seq_num, ..self }
    }

    /// The same message with another time stamp.
    pub open spec fn with_timestamp(self, timestamp: u64) -> MsgView {
        MsgView { timestamp, ..self }
    }
}

impl Msg {
    /// A copy of the message, byte for byte.
    pub fn duplicate(&self) -> (copy: Msg)
        ensures
            copy@ == self@,
    {
        let payload = self.payload.clone();
        let extension = self.extension.clone();
        assert(payload@ =~= self.payload@);
        assert(extension@ =~= self.extension@);
        Msg {
            typ: self.typ,
            sender: self.sender,
            receiver: self.receiver,
            node_id: self.node_id,
            seq_num: self.seq_num,
            timestamp: self.timestamp,
            payload,
            extension,
        }
    }
}

/// The two bytes of `x`, most significant first.
pub open spec fn be_u16(x: u16) -> Seq<u8> {
    seq![(x >> 8u16) as u8, x as u8]
}

/// The four bytes of `x`, most significant first.
pub open spec fn be_u32(x: u32) -> Seq<u8> {
    seq![(x >> 24u32) as u8, (x >> 16u32) as u8, (x >> 8u32) as u8, x as u8]
}

/// The eight bytes of `x`, most significant first.
pub open spec fn be_u64(x: u64) -> Seq<u8> {
    seq![
        (x >> 56u64) as u8,
        (x >> 48u64) as u8,
        (x >> 40u64) as u8,
        (x >> 32u64) as u8,
        (x >> 24u64) as u8,
        (x >> 16u64) as u8,
        (x >> 8u64) as u8,
        x as u8,
    ]
}

/// The bytes a message is stored as: its header fields big-endian (type,
/// sender, receiver, node, sequence number, time stamp), the lengths of its
/// payload and extension as eight bytes each, then the payload and the
/// extension.
pub open spec fn spec_encode(m: MsgView) -> Seq<u8> {
    be_u16(m.typ) + be_u64(m.sender) + be_u64(m.receiver) + be_u32(m.node_id) + be_u64(m.seq_num)
        + be_u64(m.timestamp) + be_u64(m.payload.len() as u64) + be_u64(m.extension.len() as u64)
        + m.payload + m.extension
}

/// The acknowledgement that node `my_id` sends at time `now` for `m`: it goes
/// back from the receiver to the sender, keeps the sequence number, and
/// carries the acknowledged message's time stamp as its payload.
pub open spec fn spec_ack(m: MsgView, my_id: u32, now: u64) -> MsgView {
    MsgView {
        typ: TYPE_ACK,
        sender: m.receiver,
        receiver: m.sender,
        node_id: my_id,
        seq_num: m.seq_num,
        timestamp: now,
        payload: be_u64(m.timestamp),
        extension: Seq::empty(),
    }
}

/// An error message at time `now` whose payload is `text`, the UTF-8
/// encoding of the error's text.
pub open spec fn spec_error_msg(sender: u64, receiver: u64, node_id: u32, text: Seq<u8>, now: u64) -> MsgView {
    MsgView {
        typ: TYPE_ERROR,
        sender,
        receiver,
        node_id,
        seq_num: 0,
        timestamp: now,
        payload: text,
        extension: Seq::empty(),
    }
}

fn push_u16(out: &mut Vec<u8>, x: u16)
    ensures
        final(out)@ == old(out)@ + be_u16(x),
{
    out.push((x >> 8u16) as u8);
    out.push(x as u8);
    assert(final(out)@ =~= old(out)@ + be_u16(x));
}

fn push_u32(out: &mut Vec<u8>, x: u32)
    ensures
        final(out)@ == old(out)@ + be_u32(x),
{
    out.push((x >> 24u32) as u8);
    out.push((x >> 16u32) as u8);
    out.push((x >> 8u32) as u8);
    out.push(x as u8);
    assert(final(out)@ =~= old(out)@ + be_u32(x));
}

fn push_u64(out: &mut Vec<u8>, x: u64)
    ensures
        final(out)@ == old(out)@ + be_u64(x),
{
    out.push((x >> 56u64) as u8);
    out.push((x >> 48u64) as u8);
    out.push((x >> 40u64) as u8);
    out.push((x >> 32u64) as u8);
    out.push((x >> 24u64) as u8);
    out.push((x >> 16u64) as u8);
    out.push((x >> 8u64) as u8);
    out.push(x as u8);
    assert(final(out)@ =~= old(out)@ + be_u64(x));
}

fn push_all(out: &mut Vec<u8>, bytes: &Vec<u8>)
    ensures
        final(out)@ == old(out)@ + bytes@,
{
    let mut i: usize = 0;
    while i < bytes.len()
        invariant
            i <= bytes@.len(),
            out@ == old(out)@ + bytes@.subrange(0, i as int),
        decreases bytes@.len() - i,
    {
        out.push(bytes[i]);
        i = i + 1;
        assert(out@ =~= old(out)@ + bytes@.subrange(0, i as int));
    }
    assert(bytes@.subrange(0, bytes@.len() as int) =~= bytes@);
}

impl Msg {
    /// The bytes the message is stored as.
    pub fn encode(&self) -> (bytes: Vec<u8>)
        ensures
            bytes@ == spec_encode(self@),
            bytes@.len() == 54 + self.payload@.len() + self.extension@.len(),
            bytes@[0] == (self.typ >> 8u16) as u8,
            bytes@[1] == self.typ as u8,
            bytes@.subrange(54, 54 + self.payload@.len() as int) == self.payload@,
            bytes@.subrange(54 + self.payload@.len() as int, bytes@.len() as int) == self.extension@,
    {
        let mut out: Vec<u8> = Vec::new();
        push_u16(&mut out, self.typ);
        push_u64(&mut out, self.sender);
        push_u64(&mut out, self.receiver);
        push_u32(&mut out, self.node_id);
        push_u64(&mut out, self.seq_num);
        push_u64(&mut out, self.timestamp);
        push_u64(&mut out, self.payload.len() as u64);
        push_u64(&mut out, self.extension.len() as u64);
        push_all(&mut out, &self.payload);
        push_all(&mut out, &self.extension);
        assert(out@ =~= spec_encode(self@));
        assert(out@.subrange(54, 54 + self.payload@.len() as int) =~= self.payload@);
        assert(out@.subrange(54 + self.payload@.len() as int, out@.len() as int) =~= self.extension@);
        out
    }

    /// The acknowledgement of this message that node `my_id` sends at time
    /// `now`.
    pub fn ack(&self, my_id: u32, now: u64) -> (ack: Msg)
        ensures
            ack@ == spec_ack(self@, my_id, now),
            ack.typ == TYPE_ACK,
            ack.sender == self.receiver && ack.receiver == self.sender,
            ack.node_id == my_id && ack.seq_num == self.seq_num && ack.timestamp == now,
            ack.payload@.len() == 8 && ack.extension@.len() == 0,
    {
        let mut payload: Vec<u8> = Vec::new();
        push_u64(&mut payload, self.timestamp);
        assert(payload@ =~= be_u64(self.timestamp));
        let ack = Msg {
            typ: TYPE_ACK,
            sender: self.receiver,
            receiver: self.sender,
            node_id: my_id,
            seq_num: self.seq_num,
            timestamp: now,
            payload,
            extension: Vec::new(),
        };
        assert(ack@.extension =~= Seq::<u8>::empty());
        ack
    }
}

/// The error message from `sender` to `receiver` on node `node_id` at time
/// `now`, carrying `text`.
pub fn error_msg(sender: u64, receiver: u64, node_id: u32, text: &str, now: u64) -> (m: Msg)
    ensures
        m@ == spec_error_msg(sender, receiver, node_id, vstd::utf8::encode_utf8(text@), now),
        m.typ == TYPE_ERROR && m.sender == sender && m.receiver == receiver && m.node_id
            == node_id && m.seq_num == 0 && m.timestamp == now,
        m.payload@ == vstd::utf8::encode_utf8(text@) && m.extension@.len() == 0,
{
    let payload = vstd::slice::slice_to_vec(text.as_bytes());
    let m = Msg {
        typ: TYPE_ERROR,
        sender,
        receiver,
        node_id,
        seq_num: 0,
        timestamp: now,
        payload,
        extension: Vec::new(),
    };
    assert(m@.extension =~= Seq::<u8>::empty());
    m
}

} // verus!
