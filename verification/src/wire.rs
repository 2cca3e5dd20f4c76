//! Protocol-defined wire constants and the byte-level building blocks of a
//! netlink message.
//!
//! The constants are a fixed table of protocol numbers (hook points, policy
//! verdicts, message types, address families, attribute tags); the encoder
//! treats them as immutable external data and never derives them. The
//! specification functions here state the exact byte sequence of every piece
//! of a message: multi-byte header fields are little-endian (the host order
//! of the supported targets), numeric attribute payloads are big-endian
//! (network order), and every attribute is padded to a four-byte boundary.

use vstd::prelude::*;

verus! {

// Hook points (`NF_INET_*`): where in the network stack a base chain runs.
pub const NF_INET_PRE_ROUTING: u32 = 0;
pub const NF_INET_LOCAL_IN: u32 = 1;
pub const NF_INET_FORWARD: u32 = 2;
pub const NF_INET_LOCAL_OUT: u32 = 3;
pub const NF_INET_POST_ROUTING: u32 = 4;

// Policy verdicts (`NF_*`): default disposition of an unmatched packet.
pub const NF_DROP: u32 = 0;
pub const NF_ACCEPT: u32 = 1;

// nftables message types (`NFT_MSG_*`), combined with the subsystem number
// into the 16-bit netlink message type field.
pub const NFT_MSG_NEWTABLE: u16 = 0;
pub const NFT_MSG_DELTABLE: u16 = 2;
pub const NFT_MSG_NEWCHAIN: u16 = 3;
pub const NFT_MSG_DELCHAIN: u16 = 5;

/// The nfnetlink subsystem number of nftables; the high byte of the message
/// type field.
pub const NFNL_SUBSYS_NFTABLES: u16 = 10;

// Netlink message flags.
pub const NLM_F_REQUEST: u16 = 1;
pub const NLM_F_ACK: u16 = 4;

/// The nfnetlink protocol version stamped into every message.
pub const NFNETLINK_V0: u8 = 0;

// Address families (`NFPROTO_*`).
pub const NFPROTO_UNSPEC: u8 = 0;
pub const NFPROTO_INET: u8 = 1;
pub const NFPROTO_IPV4: u8 = 2;
pub const NFPROTO_ARP: u8 = 3;
pub const NFPROTO_NETDEV: u8 = 5;
pub const NFPROTO_BRIDGE: u8 = 7;
pub const NFPROTO_IPV6: u8 = 10;
pub const NFPROTO_DECNET: u8 = 12;

// Attribute tags of a table message.
pub const NFTA_TABLE_NAME: u16 = 1;

// Attribute tags of a chain message.
pub const NFTA_CHAIN_TABLE: u16 = 1;
pub const NFTA_CHAIN_NAME: u16 = 3;
pub const NFTA_CHAIN_HOOK: u16 = 4;
pub const NFTA_CHAIN_POLICY: u16 = 5;

// Attribute tags inside the nested hook attribute.
pub const NFTA_HOOK_HOOKNUM: u16 = 1;
pub const NFTA_HOOK_PRIORITY: u16 = 2;

/// Flag on an attribute tag marking the attribute as a nested container.
pub const NLA_F_NESTED: u16 = 0x8000;

/// Length of the fixed message header: 16 bytes of netlink header followed
/// by the 4-byte nfgenmsg (family, version, resource id).
pub const MSG_HDR_LEN: usize = 20;

/// Longest accepted object name, in bytes, not counting the terminating null
/// byte the encoder appends.
pub const MAX_NAME_LEN: usize = 255;

/// A name is representable on the wire: non-empty, free of embedded null
/// bytes, and short enough for a length-prefixed attribute.
pub open spec fn valid_name(s: Seq<u8>) -> bool {
    &&& 1 <= s.len() <= MAX_NAME_LEN
    &&& forall|i: int| 0 <= i < s.len() ==> s[i] != 0
}

/// The two bytes of `x` in little-endian order.
pub open spec fn u16_le(x: u16) -> Seq<u8> {
    seq![(x % 0x100) as u8, ((x / 0x100) % 0x100) as u8]
}

/// The four bytes of `x` in little-endian order.
pub open spec fn u32_le(x: u32) -> Seq<u8> {
    seq![
        (x % 0x100) as u8,
        ((x / 0x100) % 0x100) as u8,
        ((x / 0x10000) % 0x100) as u8,
        ((x / 0x1000000) % 0x100) as u8,
    ]
}

/// The four bytes of `x` in big-endian (network) order, as numeric attribute
/// payloads are sent.
pub open spec fn u32_be(x: u32) -> Seq<u8> {
    seq![
        ((x / 0x1000000) % 0x100) as u8,
        ((x / 0x10000) % 0x100) as u8,
        ((x / 0x100) % 0x100) as u8,
        (x % 0x100) as u8,
    ]
}

/// `n` zero bytes.
pub open spec fn zeros(n: nat) -> Seq<u8> {
    Seq::new(n, |i: int| 0u8)
}

/// How many zero bytes carry a payload of `n` bytes to the next four-byte
/// boundary.
pub open spec fn pad_len(n: nat) -> nat {
    (((4 - n % 4) % 4) as nat)
}

/// A length-prefixed string attribute: 2-byte length (header included),
/// 2-byte tag, the name, a terminating null byte, and alignment padding.
pub open spec fn str_attr(tag: u16, name: Seq<u8>) -> Seq<u8> {
    u16_le((4 + name.len() + 1) as u16) + u16_le(tag) + name + seq![0u8]
        + zeros(pad_len(name.len() + 1))
}

/// A 32-bit numeric attribute: 2-byte length (always 8), 2-byte tag, and the
/// value in network order.
pub open spec fn u32_attr(tag: u16, value: u32) -> Seq<u8> {
    u16_le(8) + u16_le(tag) + u32_be(value)
}

/// The nested hook attribute of a base chain: a container tagged
/// `NFTA_CHAIN_HOOK | NLA_F_NESTED` holding the hook number and the priority,
/// each as a numeric attribute of its own.
pub open spec fn hook_attr(hooknum: u32, prio: u32) -> Seq<u8> {
    u16_le(20) + u16_le(NFTA_CHAIN_HOOK | NLA_F_NESTED)
        + u32_attr(NFTA_HOOK_HOOKNUM, hooknum) + u32_attr(NFTA_HOOK_PRIORITY, prio)
}

/// The fixed 20-byte message header in front of a payload of `payload_len`
/// bytes: total length, message type (subsystem in the high byte), flags
/// (a request that asks for an acknowledgment), sequence number, port id
/// zero, then the nfgenmsg carrying the address family.
pub open spec fn nl_header(payload_len: nat, msg: u16, family: u8, seq_no: u32) -> Seq<u8> {
    u32_le((MSG_HDR_LEN + payload_len) as u32) + u16_le((256 * NFNL_SUBSYS_NFTABLES + msg) as u16)
        + u16_le(NLM_F_REQUEST | NLM_F_ACK) + u32_le(seq_no) + u32_le(0)
        + seq![family, NFNETLINK_V0, 0u8, 0u8]
}

/// Appends the two little-endian bytes of `x`.
pub fn put_u16_le(buf: &mut Vec<u8>, x: u16)
    ensures
        final(buf)@ == old(buf)@ + u16_le(x),
{
    buf.push((x % 0x100) as u8);
    buf.push(((x / 0x100) % 0x100) as u8);
    proof {
        assert(buf@ =~= old(buf)@ + u16_le(x));
    }
}

/// Appends the four little-endian bytes of `x`.
pub fn put_u32_le(buf: &mut Vec<u8>, x: u32)
    ensures
        final(buf)@ == old(buf)@ + u32_le(x),
{
    buf.push((x % 0x100) as u8);
    buf.push(((x / 0x100) % 0x100) as u8);
    buf.push(((x / 0x10000) % 0x100) as u8);
    buf.push(((x / 0x1000000) % 0x100) as u8);
    proof {
        assert(buf@ =~= old(buf)@ + u32_le(x));
    }
}

/// Appends the four big-endian bytes of `x`.
pub fn put_u32_be(buf: &mut Vec<u8>, x: u32)
    ensures
        final(buf)@ == old(buf)@ + u32_be(x),
{
    buf.push(((x / 0x1000000) % 0x100) as u8);
    buf.push(((x / 0x10000) % 0x100) as u8);
    buf.push(((x / 0x100) % 0x100) as u8);
    buf.push((x % 0x100) as u8);
    proof {
        assert(buf@ =~= old(buf)@ + u32_be(x));
    }
}

/// Appends a string attribute for `name` under `tag`.
pub fn put_str_attr(buf: &mut Vec<u8>, tag: u16, name: &Vec<u8>)
    requires
        name@.len() <= MAX_NAME_LEN,
    ensures
        final(buf)@ == old(buf)@ + str_attr(tag, name@),
{
    let ghost buf0: Seq<u8> = buf@;
    put_u16_le(buf, 4 + name.len() as u16 + 1);
    put_u16_le(buf, tag);
    let mut i: usize = 0;
    while i < name.len()
        invariant
            i <= name@.len(),
            name@.len() <= MAX_NAME_LEN,
            buf@ == buf0 + u16_le((4 + name@.len() + 1) as u16) + u16_le(tag)
                + name@.subrange(0, i as int),
        decreases name@.len() - i,
    {
        buf.push(name[i]);
        proof {
            assert(name@.subrange(0, i + 1) =~= name@.subrange(0, i as int).push(name@[i as int]));
        }
        i += 1;
    }
    buf.push(0);
    let pad: usize = (4 - ((name.len() + 1) % 4)) % 4;
    let mut j: usize = 0;
    while j < pad
        invariant
            j <= pad,
            pad == pad_len(name@.len() + 1),
            buf@ == buf0 + u16_le((4 + name@.len() + 1) as u16) + u16_le(tag)
                + name@.subrange(0, name@.len() as int) + seq![0u8] + zeros(j as nat),
        decreases pad - j,
    {
        buf.push(0);
        proof {
            assert(zeros((j + 1) as nat) =~= zeros(j as nat).push(0u8));
        }
        j += 1;
    }
    proof {
        assert(name@.subrange(0, name@.len() as int) =~= name@);
        assert(zeros(pad as nat) =~= zeros(pad_len(name@.len() + 1)));
        assert(buf@ =~= old(buf)@ + str_attr(tag, name@));
    }
}

/// Appends a numeric attribute carrying `value` under `tag`.
pub fn put_u32_attr(buf: &mut Vec<u8>, tag: u16, value: u32)
    ensures
        final(buf)@ == old(buf)@ + u32_attr(tag, value),
{
    put_u16_le(buf, 8);
    put_u16_le(buf, tag);
    put_u32_be(buf, value);
    proof {
        assert(buf@ =~= old(buf)@ + u32_attr(tag, value));
    }
}

/// Appends the nested hook attribute of a base chain.
pub fn put_hook_attr(buf: &mut Vec<u8>, hooknum: u32, prio: u32)
    ensures
        final(buf)@ == old(buf)@ + hook_attr(hooknum, prio),
{
    put_u16_le(buf, 20);
    put_u16_le(buf, NFTA_CHAIN_HOOK | NLA_F_NESTED);
    put_u32_attr(buf, NFTA_HOOK_HOOKNUM, hooknum);
    put_u32_attr(buf, NFTA_HOOK_PRIORITY, prio);
    proof {
        assert(buf@ =~= old(buf)@ + hook_attr(hooknum, prio));
    }
}

/// Appends the fixed message header for a payload of `payload_len` bytes.
pub fn put_nl_header(buf: &mut Vec<u8>, payload_len: usize, msg: u16, family: u8, seq_no: u32)
    requires
        payload_len <= 0x10000,
        msg < 0x100,
    ensures
        final(buf)@ == old(buf)@ + nl_header(payload_len as nat, msg, family, seq_no),
{
    put_u32_le(buf, 20 + payload_len as u32);
    put_u16_le(buf, 256 * NFNL_SUBSYS_NFTABLES + msg);
    put_u16_le(buf, NLM_F_REQUEST | NLM_F_ACK);
    put_u32_le(buf, seq_no);
    put_u32_le(buf, 0);
    buf.push(family);
    buf.push(NFNETLINK_V0);
    buf.push(0);
    buf.push(0);
    proof {
        assert(buf@ =~= old(buf)@ + nl_header(payload_len as nat, msg, family, seq_no));
    }
}

} // verus!
