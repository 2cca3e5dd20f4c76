//! Proved statements relating the encoders' contracts: which attributes a
//! chain message holds, and what stands in its header.

use vstd::prelude::*;

use crate::chain::{
    attr_bytes, attrs_bytes, chain_attrs, chain_msg, chain_msg_type, chain_payload, Attr,
    ChainData,
};
use crate::msg::MsgType;
use crate::wire;

verus! {

/// Unfolds [`attrs_bytes`] across one leading attribute.
proof fn lemma_attrs_bytes_cons(a0: Attr, rest: Seq<Attr>)
    ensures
        attrs_bytes(seq![a0] + rest) == attr_bytes(a0) + attrs_bytes(rest),
    decreases rest.len(),
{
    let s = seq![a0] + rest;
    assert(s[0] == a0);
    assert(s.drop_first() =~= rest);
}

/// The payload bytes of a chain message are exactly the bytes of its
/// attribute run: the byte-level and the attribute-level views of the
/// payload agree.
pub proof fn lemma_chain_payload_is_attrs(c: ChainData)
    ensures
        chain_payload(c) == attrs_bytes(chain_attrs(c)),
{
    let a0 = Attr::Str { tag: wire::NFTA_CHAIN_TABLE, value: c.table_name };
    let a1 = Attr::Str { tag: wire::NFTA_CHAIN_NAME, value: c.name };
    let hook_part: Seq<Attr> = match c.hook {
        Some((h, p)) => seq![Attr::Hook { hooknum: h.wire_spec(), prio: p }],
        None => Seq::<Attr>::empty(),
    };
    let policy_part: Seq<Attr> = match c.policy {
        Some(p) => seq![Attr::Num { tag: wire::NFTA_CHAIN_POLICY, value: p.wire_spec() }],
        None => Seq::<Attr>::empty(),
    };
    assert(chain_attrs(c) =~= seq![a0] + (seq![a1] + (hook_part + policy_part)));
    lemma_attrs_bytes_cons(a0, seq![a1] + (hook_part + policy_part));
    lemma_attrs_bytes_cons(a1, hook_part + policy_part);
    match c.hook {
        Some((h, p)) => {
            let ah = Attr::Hook { hooknum: h.wire_spec(), prio: p };
            assert(hook_part + policy_part =~= seq![ah] + policy_part);
            lemma_attrs_bytes_cons(ah, policy_part);
        },
        None => {
            assert(hook_part + policy_part =~= policy_part);
        },
    }
    match c.policy {
        Some(p) => {
            let ap = Attr::Num { tag: wire::NFTA_CHAIN_POLICY, value: p.wire_spec() };
            assert(policy_part =~= seq![ap] + Seq::<Attr>::empty());
            lemma_attrs_bytes_cons(ap, Seq::<Attr>::empty());
        },
        None => {},
    }
    assert(attrs_bytes(Seq::<Attr>::empty()) == Seq::<u8>::empty());
    assert(chain_payload(c) =~= attrs_bytes(chain_attrs(c)));
}

/// A chain that never registered a hook encodes no hook attribute; one
/// registered at `(h, p)` encodes exactly one, carrying `h`'s wire number
/// and `p` verbatim, and it stands right after the two name attributes.
pub proof fn lemma_hook_attr_presence(c: ChainData)
    ensures
        c.hook is None ==> (forall|i: int|
            0 <= i < chain_attrs(c).len() ==> !(chain_attrs(c)[i] is Hook)),
        c.hook matches Some(hp) ==> {
            &&& chain_attrs(c)[2] == (Attr::Hook { hooknum: hp.0.wire_spec(), prio: hp.1 })
            &&& forall|i: int|
                0 <= i < chain_attrs(c).len() && i != 2 ==> !(chain_attrs(c)[i] is Hook)
        },
{
}

/// A chain on which no policy was set encodes no policy attribute; one
/// with policy `p` encodes exactly one, carrying `p`'s wire verdict,
/// whether or not the chain is a base chain.
pub proof fn lemma_policy_attr_presence(c: ChainData)
    ensures
        c.policy is None ==> (forall|i: int|
            0 <= i < chain_attrs(c).len() ==> !(chain_attrs(c)[i] is Num)),
        c.policy matches Some(p) ==> {
            &&& chain_attrs(c)[if c.hook is Some { 3int } else { 2int }] == (Attr::Num {
                tag: wire::NFTA_CHAIN_POLICY,
                value: p.wire_spec(),
            })
            &&& forall|i: int|
                0 <= i < chain_attrs(c).len() && i != (if c.hook is Some { 3int } else { 2int })
                    ==> !(chain_attrs(c)[i] is Num)
        },
{
}

/// Encoding is deterministic: the message is a function of the chain's
/// abstract state, the sequence number and the operation alone, so two
/// encodings of equal state under equal arguments are byte-identical.
pub proof fn lemma_encode_deterministic(c1: ChainData, c2: ChainData, seq_no: u32, op: MsgType)
    requires
        c1 == c2,
    ensures
        chain_msg(c1, seq_no, op) == chain_msg(c2, seq_no, op),
{
}

/// What stands in the header of a chain message: the total length, the
/// message type picked by the operation (the "new chain" constant for an
/// addition, the "delete chain" constant for a deletion) under the
/// nftables subsystem number, the request and acknowledgment flags, the
/// supplied sequence number, and the owning table's family.
pub proof fn lemma_header_fields(c: ChainData, seq_no: u32, op: MsgType)
    ensures
        chain_msg(c, seq_no, op).len() == 20 + chain_payload(c).len(),
        chain_msg(c, seq_no, op).subrange(0, 4) == wire::u32_le(
            ((20 + chain_payload(c).len()) as u32),
        ),
        chain_msg(c, seq_no, op).subrange(4, 6) == wire::u16_le(
            ((256 * wire::NFNL_SUBSYS_NFTABLES + chain_msg_type(op)) as u16),
        ),
        chain_msg_type(MsgType::Add) == wire::NFT_MSG_NEWCHAIN,
        chain_msg_type(MsgType::Del) == wire::NFT_MSG_DELCHAIN,
        chain_msg(c, seq_no, op).subrange(6, 8) == wire::u16_le(wire::NLM_F_REQUEST
            | wire::NLM_F_ACK),
        chain_msg(c, seq_no, op).subrange(8, 12) == wire::u32_le(seq_no),
        chain_msg(c, seq_no, op)[16] == c.family.wire_spec(),
{
    let m = chain_msg(c, seq_no, op);
    let pl = chain_payload(c).len();
    assert(m.subrange(0, 4) =~= wire::u32_le(((20 + pl) as u32)));
    assert(m.subrange(4, 6) =~= wire::u16_le(
        ((256 * wire::NFNL_SUBSYS_NFTABLES + chain_msg_type(op)) as u16),
    ));
    assert(m.subrange(6, 8) =~= wire::u16_le(wire::NLM_F_REQUEST | wire::NLM_F_ACK));
    assert(m.subrange(8, 12) =~= wire::u32_le(seq_no));
}

} // verus!
