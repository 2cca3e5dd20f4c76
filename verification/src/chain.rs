//! Chains: named rule containers inside a table, optionally registered as
//! kernel hook entry points, and their netlink message encoding.

use vstd::prelude::*;

use crate::error::ErrorKind;
use crate::msg::{MsgType, NlMsg};
use crate::table::{check_name, ProtoFamily, Table};
use crate::wire;

verus! {

/// The priority of a base chain among the chains at the same hook point;
/// lower values run first. Any value is accepted and forwarded verbatim —
/// the protocol defines no valid range.
pub type Priority = u32;

/// The netfilter event hooks a chain can register for, each mapped to its
/// fixed `NF_INET_*` wire number.
#[derive(Debug, Clone, Copy, PartialEq, Eq, Hash, Structural)]
pub enum Hook {
    PreRouting,
    In,
    Forward,
    Out,
    PostRouting,
}

impl Hook {
    /// The `NF_INET_*` number of this hook point.
    pub open spec fn wire_spec(self) -> u32 {
        match self {
            Hook::PreRouting => wire::NF_INET_PRE_ROUTING,
            Hook::In => wire::NF_INET_LOCAL_IN,
            Hook::Forward => wire::NF_INET_FORWARD,
            Hook::Out => wire::NF_INET_LOCAL_OUT,
            Hook::PostRouting => wire::NF_INET_POST_ROUTING,
        }
    }

    /// The `NF_INET_*` number of this hook point.
    pub fn wire(self) -> (r: u32)
        ensures
            r == self.wire_spec(),
    {
        match self {
            Hook::PreRouting => wire::NF_INET_PRE_ROUTING,
            Hook::In => wire::NF_INET_LOCAL_IN,
            Hook::Forward => wire::NF_INET_FORWARD,
            Hook::Out => wire::NF_INET_LOCAL_OUT,
            Hook::PostRouting => wire::NF_INET_POST_ROUTING,
        }
    }
}

/// What to do with a packet that traversed a chain without matching any
/// terminating rule, each mapped to its fixed `NF_*` verdict number.
#[derive(Debug, Clone, Copy, PartialEq, Eq, Hash, Structural)]
pub enum Policy {
    Accept,
    Drop,
}

impl Policy {
    /// The `NF_*` verdict number of this policy.
    pub open spec fn wire_spec(self) -> u32 {
        match self {
            Policy::Accept => wire::NF_ACCEPT,
            Policy::Drop => wire::NF_DROP,
        }
    }

    /// The `NF_*` verdict number of this policy.
    pub fn wire(self) -> (r: u32)
        ensures
            r == self.wire_spec(),
    {
        match self {
            Policy::Accept => wire::NF_ACCEPT,
            Policy::Drop => wire::NF_DROP,
        }
    }
}

/// The abstract state of a [`Chain`]: the table name and family stamped
/// into it at construction, its own name, the optional hook registration,
/// the optional policy, and whether its native resource is still held.
pub struct ChainData {
    pub table_name: Seq<u8>,
    pub family: ProtoFamily,
    pub name: Seq<u8>,
    pub hook: Option<(Hook, Priority)>,
    pub policy: Option<Policy>,
    pub live: bool,
}

/// One attribute of a chain message, at the level the payload is reasoned
/// about: a string field, a numeric field, or the nested hook registration.
pub enum Attr {
    Str { tag: u16, value: Seq<u8> },
    Num { tag: u16, value: u32 },
    Hook { hooknum: u32, prio: u32 },
}

/// The bytes of one attribute.
pub open spec fn attr_bytes(a: Attr) -> Seq<u8> {
    match a {
        Attr::Str { tag, value } => wire::str_attr(tag, value),
        Attr::Num { tag, value } => wire::u32_attr(tag, value),
        Attr::Hook { hooknum, prio } => wire::hook_attr(hooknum, prio),
    }
}

/// The bytes of a run of attributes, in order.
pub open spec fn attrs_bytes(s: Seq<Attr>) -> Seq<u8>
    decreases s.len(),
{
    if s.len() == 0 {
        Seq::empty()
    } else {
        attr_bytes(s[0]) + attrs_bytes(s.drop_first())
    }
}

/// The attributes of a chain's message payload, in order: the owning
/// table's name, the chain's own name, then — only if the chain is a base
/// chain — the hook registration, then — only if a policy was set — the
/// policy verdict.
pub open spec fn chain_attrs(c: ChainData) -> Seq<Attr> {
    seq![
        Attr::Str { tag: wire::NFTA_CHAIN_TABLE, value: c.table_name },
        Attr::Str { tag: wire::NFTA_CHAIN_NAME, value: c.name },
    ] + (match c.hook {
        Some((h, p)) => seq![Attr::Hook { hooknum: h.wire_spec(), prio: p }],
        None => Seq::<Attr>::empty(),
    }) + (match c.policy {
        Some(p) => seq![Attr::Num { tag: wire::NFTA_CHAIN_POLICY, value: p.wire_spec() }],
        None => Seq::<Attr>::empty(),
    })
}

/// The payload bytes of a chain's message: its attributes, concatenated.
pub open spec fn chain_payload(c: ChainData) -> Seq<u8> {
    wire::str_attr(wire::NFTA_CHAIN_TABLE, c.table_name)
        + wire::str_attr(wire::NFTA_CHAIN_NAME, c.name)
        + (match c.hook {
        Some((h, p)) => wire::hook_attr(h.wire_spec(), p),
        None => Seq::<u8>::empty(),
    }) + (match c.policy {
        Some(p) => wire::u32_attr(wire::NFTA_CHAIN_POLICY, p.wire_spec()),
        None => Seq::<u8>::empty(),
    })
}

/// The `NFT_MSG_*` constant a chain message of the given operation carries.
pub open spec fn chain_msg_type(op: MsgType) -> u16 {
    match op {
        MsgType::Add => wire::NFT_MSG_NEWCHAIN,
        MsgType::Del => wire::NFT_MSG_DELCHAIN,
    }
}

/// The complete message of a chain: the fixed header carrying the message
/// type for the operation, the owning table's family and the sequence
/// number, followed by the chain's payload.
pub open spec fn chain_msg(c: ChainData, seq_no: u32, op: MsgType) -> Seq<u8> {
    wire::nl_header(
        chain_payload(c).len(),
        chain_msg_type(op),
        c.family.wire_spec(),
        seq_no,
    ) + chain_payload(c)
}

/// A chain inside a [`Table`]. Without a hook registration it is a regular
/// chain, reachable only through jump or goto verdicts; [`Chain::register_hook`]
/// turns it into a base chain the kernel invokes directly. The chain
/// borrows its table: it cannot outlive it.
pub struct Chain<'a> {
    table: &'a Table,
    table_name: Vec<u8>,
    family: ProtoFamily,
    name: Vec<u8>,
    hook: Option<(Hook, Priority)>,
    policy: Option<Policy>,
    live: bool,
}

impl<'a> View for Chain<'a> {
    type V = ChainData;

    closed spec fn view(&self) -> ChainData {
        ChainData {
            table_name: self.table_name@,
            family: self.family,
            name: self.name@,
            hook: self.hook,
            policy: self.policy,
            live: self.live,
        }
    }
}

impl<'a> Chain<'a> {
    /// Every chain the constructor hands out satisfies this: both names are
    /// representable wire identifiers, and the name and family stamped in
    /// at construction are those of the borrowed table.
    pub closed spec fn wf(self) -> bool {
        &&& wire::valid_name(self@.name)
        &&& wire::valid_name(self@.table_name)
        &&& self.table@.name == self@.table_name
        &&& self.table@.family == self@.family
        &&& self.table.wf()
    }

    /// Creates a chain with the given name inside the given table, copying
    /// the table's name and family into the chain. Fails exactly when the
    /// name is not representable as a wire identifier; the new chain is a
    /// regular chain with no policy, holding its native resource.
    pub fn new(name: Vec<u8>, table: &'a Table) -> (r: Result<Chain<'a>, ErrorKind>)
        requires
            table.wf(),
        ensures
            r is Ok <==> wire::valid_name(name@),
            r is Ok ==> (r->Ok_0)@ == (ChainData {
                table_name: table@.name,
                family: table@.family,
                name: name@,
                hook: None::<(Hook, Priority)>,
                policy: None::<Policy>,
                live: true,
            }),
            r is Ok ==> (r->Ok_0).wf(),
            r is Err ==> r->Err_0 == ErrorKind::InvalidName,
    {
        if !check_name(&name) {
            return Err(ErrorKind::InvalidName);
        }
        let mut table_name: Vec<u8> = Vec::new();
        let src = table.name();
        let mut i: usize = 0;
        while i < src.len()
            invariant
                i <= src@.len(),
                table_name@ == src@.subrange(0, i as int),
            decreases src@.len() - i,
        {
            table_name.push(src[i]);
            proof {
                assert(src@.subrange(0, i + 1) =~= src@.subrange(0, i as int).push(src@[i as int]));
            }
            i += 1;
        }
        proof {
            assert(table_name@ =~= table@.name);
        }
        Ok(Chain {
            table,
            table_name,
            family: table.family(),
            name,
            hook: None,
            policy: None,
            live: true,
        })
    }

    /// Registers the chain at the given hook point with the given priority,
    /// making it a base chain. Unconditional; the priority is forwarded
    /// verbatim. Calling it again replaces the registration.
    pub fn register_hook(&mut self, hook: Hook, priority: Priority)
        ensures
            final(self)@ == (ChainData { hook: Some((hook, priority)), ..old(self)@ }),
            old(self).wf() ==> final(self).wf(),
    {
        self.hook = Some((hook, priority));
    }

    /// Sets the chain's default policy. Unconditional; on a regular chain
    /// the policy has no observable effect, but nothing prevents setting it.
    pub fn set_policy(&mut self, policy: Policy)
        ensures
            final(self)@ == (ChainData { policy: Some(policy), ..old(self)@ }),
            old(self).wf() ==> final(self).wf(),
    {
        self.policy = Some(policy);
    }

    /// The chain's name, exactly as supplied at construction.
    pub fn get_name(&self) -> (r: &Vec<u8>)
        ensures
            r@ == self@.name,
    {
        &self.name
    }

    /// The borrowed table this chain lives in; its name and family are the
    /// ones stamped into the chain at construction.
    pub fn get_table(&self) -> (r: &Table)
        requires
            self.wf(),
        ensures
            r@.name == self@.table_name,
            r@.family == self@.family,
            r.wf(),
    {
        self.table
    }

    /// Releases the chain's native resource, exactly once: the first call
    /// performs the release and returns `true`; any further call finds the
    /// guard set, does nothing, and returns `false`. The borrowed table is
    /// not touched.
    pub fn release(&mut self) -> (freed: bool)
        ensures
            final(self)@ == (ChainData { live: false, ..old(self)@ }),
            freed == old(self)@.live,
            old(self).wf() ==> final(self).wf(),
    {
        let was_live = self.live;
        self.live = false;
        was_live
    }
}

impl<'a> NlMsg for Chain<'a> {
    /// The exact bytes of this chain's message: [`chain_msg`] of its
    /// abstract state.
    open spec fn msg_bytes(&self, seq_no: u32, msg_type: MsgType) -> Seq<u8> {
        chain_msg(self@, seq_no, msg_type)
    }

    /// A chain may encode itself while it is well formed and still holds
    /// its native resource.
    open spec fn msg_ready(&self) -> bool {
        self.wf() && self@.live
    }

    fn write(&self, buf: &mut Vec<u8>, seq_no: u32, msg_type: MsgType) {
        let mut payload: Vec<u8> = Vec::new();
        wire::put_str_attr(&mut payload, wire::NFTA_CHAIN_TABLE, &self.table_name);
        wire::put_str_attr(&mut payload, wire::NFTA_CHAIN_NAME, &self.name);
        match self.hook {
            Some((h, p)) => wire::put_hook_attr(&mut payload, h.wire(), p),
            None => {},
        }
        match self.policy {
            Some(p) => wire::put_u32_attr(&mut payload, wire::NFTA_CHAIN_POLICY, p.wire()),
            None => {},
        }
        proof {
            assert(payload@ =~= chain_payload(self@));
        }
        let raw_msg_type = match msg_type {
            MsgType::Add => wire::NFT_MSG_NEWCHAIN,
            MsgType::Del => wire::NFT_MSG_DELCHAIN,
        };
        buf.clear();
        wire::put_nl_header(buf, payload.len(), raw_msg_type, self.family.wire(), seq_no);
        buf.append(&mut payload);
        proof {
            assert(buf@ =~= chain_msg(self@, seq_no, msg_type));
        }
    }
}

} // verus!
