//! Identities of users, groups and conversations.
use vstd::prelude::*;

verus! {

/// Every id at or above this value names a group; ids below it name users.
pub const GROUP_ID_THRESHOLD: u64 = 0x2_0000_0000u64;

/// `2^64`: the weight of the smaller id in a conversation key.
pub open spec fn key_base() -> int {
    0x1_0000_0000_0000_0000
}

pub open spec fn spec_is_group(id: u64) -> bool {
    id >= GROUP_ID_THRESHOLD
}

pub open spec fn min_id(a: u64, b: u64) -> u64 {
    if a <= b { a } else { b }
}

pub open spec fn max_id(a: u64, b: u64) -> u64 {
    if a <= b { b } else { a }
}

/// The key of the conversation between two ids: the smaller id in the high
/// 64 bits, the larger in the low 64 bits.
pub open spec fn pair_key(a: u64, b: u64) -> int {
    min_id(a, b) * key_base() + max_id(a, b)
}

/// Whether a receiver id names a group rather than a user.
pub fn is_group_msg(user_id: u64) -> (r: bool)
    ensures
        r == spec_is_group(user_id),
        r == (user_id >= GROUP_ID_THRESHOLD),
{
    user_id >= GROUP_ID_THRESHOLD
}

/// The conversation key shared by two ids, whichever of them comes first.
pub fn who_we_are(id1: u64, id2: u64) -> (key: u128)
    ensures
        key == pair_key(id1, id2),
        id1 <= id2 ==> key == id1 * 0x1_0000_0000_0000_0000 + id2,
        id2 < id1 ==> key == id2 * 0x1_0000_0000_0000_0000 + id1,
{
    let lo: u64 = if id1 <= id2 { id1 } else { id2 };
    let hi: u64 = if id1 <= id2 { id2 } else { id1 };
    let key: u128 = ((lo as u128) << 64u128) | (hi as u128);
    assert(key == lo * 0x1_0000_0000_0000_0000u128 + hi) by (bit_vector)
        requires
            key == ((lo as u128) << 64u128) | (hi as u128),
    ;
    key
}

/// The two user ids carried by a conversation key: the high 64 bits and the
/// low 64 bits, in that order.
pub fn split_users_key(key: u128) -> (ids: (u64, u64))
    ensures
        ids.0 == key / (key_base() as u128),
        ids.1 == key % (key_base() as u128),
        ids.0 * 0x1_0000_0000_0000_0000 + ids.1 == key,
{
    let high: u64 = (key >> 64u128) as u64;
    let low: u64 = key as u64;
    assert(high == key / 0x1_0000_0000_0000_0000u128 && low == key % 0x1_0000_0000_0000_0000u128)
        by (bit_vector)
        requires
            high == (key >> 64u128) as u64,
            low == key as u64,
    ;
    (high, low)
}

/// The conversation a message from `sender` to `receiver` belongs to: the
/// group itself when the receiver is a group, the pair of users otherwise.
pub open spec fn spec_conversation(sender: u64, receiver: u64) -> int {
    if spec_is_group(receiver) {
        pair_key(receiver, receiver)
    } else {
        pair_key(sender, receiver)
    }
}

/// The key of the conversation a message from `sender` to `receiver`
/// belongs to.
pub fn conversation_key(sender: u64, receiver: u64) -> (key: u128)
    ensures
        key == spec_conversation(sender, receiver),
        receiver >= GROUP_ID_THRESHOLD ==> key == receiver * 0x1_0000_0000_0000_0000 + receiver,
        receiver < GROUP_ID_THRESHOLD && sender <= receiver ==> key == sender
            * 0x1_0000_0000_0000_0000 + receiver,
        receiver < GROUP_ID_THRESHOLD && receiver < sender ==> key == receiver
            * 0x1_0000_0000_0000_0000 + sender,
{
    if is_group_msg(receiver) {
        who_we_are(receiver, receiver)
    } else {
        who_we_are(sender, receiver)
    }
}

/// Two ids name the same conversation in either order.
pub proof fn lemma_pair_key_symmetric(a: u64, b: u64)
    ensures
        pair_key(a, b) == pair_key(b, a),
{
}

/// Splitting the key of a conversation gives back its two members, the
/// smaller first.
pub proof fn lemma_split_pair_key(a: u64, b: u64)
    ensures
        0 <= pair_key(a, b) < key_base() * key_base(),
        pair_key(a, b) / key_base() == min_id(a, b),
        pair_key(a, b) % key_base() == max_id(a, b),
{
    let lo = min_id(a, b) as int;
    let hi = max_id(a, b) as int;
    assert(0 <= lo * key_base() + hi < key_base() * key_base()) by (nonlinear_arith)
        requires
            0 <= lo < key_base(),
            0 <= hi < key_base(),
    ;
    vstd::arithmetic::div_mod::lemma_fundamental_div_mod_converse(
        lo * key_base() + hi,
        key_base(),
        lo,
        hi,
    );
}

/// Distinct unordered pairs of ids have distinct conversation keys.
pub proof fn lemma_pair_key_injective(a: u64, b: u64, c: u64, d: u64)
    requires
        pair_key(a, b) == pair_key(c, d),
    ensures
        min_id(a, b) == min_id(c, d),
        max_id(a, b) == max_id(c, d),
{
    lemma_split_pair_key(a, b);
    lemma_split_pair_key(c, d);
}

} // verus!
