//! The top-level namespace object of the packet filter: a named table bound
//! to one address family.

use vstd::prelude::*;

use crate::error::ErrorKind;
use crate::msg::{MsgType, NlMsg};
use crate::wire;

verus! {

/// The address family a table applies to, each mapped to its fixed
/// `NFPROTO_*` wire value.
#[derive(Debug, Clone, Copy, PartialEq, Eq, Hash, Structural)]
pub enum ProtoFamily {
    Unspec,
    Inet,
    Ipv4,
    Arp,
    NetDev,
    Bridge,
    Ipv6,
    DecNet,
}

impl ProtoFamily {
    /// The `NFPROTO_*` number of this family.
    pub open spec fn wire_spec(self) -> u8 {
        match self {
            ProtoFamily::Unspec => wire::NFPROTO_UNSPEC,
            ProtoFamily::Inet => wire::NFPROTO_INET,
            ProtoFamily::Ipv4 => wire::NFPROTO_IPV4,
            ProtoFamily::Arp => wire::NFPROTO_ARP,
            ProtoFamily::NetDev => wire::NFPROTO_NETDEV,
            ProtoFamily::Bridge => wire::NFPROTO_BRIDGE,
            ProtoFamily::Ipv6 => wire::NFPROTO_IPV6,
            ProtoFamily::DecNet => wire::NFPROTO_DECNET,
        }
    }

    /// The `NFPROTO_*` number of this family.
    pub fn wire(self) -> (r: u8)
        ensures
            r == self.wire_spec(),
    {
        match self {
            ProtoFamily::Unspec => wire::NFPROTO_UNSPEC,
            ProtoFamily::Inet => wire::NFPROTO_INET,
            ProtoFamily::Ipv4 => wire::NFPROTO_IPV4,
            ProtoFamily::Arp => wire::NFPROTO_ARP,
            ProtoFamily::NetDev => wire::NFPROTO_NETDEV,
            ProtoFamily::Bridge => wire::NFPROTO_BRIDGE,
            ProtoFamily::Ipv6 => wire::NFPROTO_IPV6,
            ProtoFamily::DecNet => wire::NFPROTO_DECNET,
        }
    }
}

/// The abstract state of a [`Table`]: its family and its name as a byte
/// sequence.
pub struct TableData {
    pub family: ProtoFamily,
    pub name: Seq<u8>,
}

/// A named nftables table. The name and the family are fixed at
/// construction; chains are created inside a table by borrowing it.
pub struct Table {
    family: ProtoFamily,
    name: Vec<u8>,
}

impl View for Table {
    type V = TableData;

    closed spec fn view(&self) -> TableData {
        TableData { family: self.family, name: self.name@ }
    }
}

impl Table {
    /// Every table the constructor hands out satisfies this: its name is a
    /// representable wire identifier.
    pub open spec fn wf(self) -> bool {
        wire::valid_name(self@.name)
    }

    /// Creates a table of the given family under the given name. Fails
    /// exactly when the name is not representable as a wire identifier.
    pub fn new(family: ProtoFamily, name: Vec<u8>) -> (r: Result<Table, ErrorKind>)
        ensures
            r is Ok <==> wire::valid_name(name@),
            r is Ok ==> (r->Ok_0)@ == (TableData { family, name: name@ }) && (r->Ok_0).wf(),
            r is Err ==> r->Err_0 == ErrorKind::InvalidName,
    {
        if !check_name(&name) {
            return Err(ErrorKind::InvalidName);
        }
        Ok(Table { family, name })
    }

    /// The table's name, exactly as supplied at construction.
    pub fn name(&self) -> (r: &Vec<u8>)
        ensures
            r@ == self@.name,
    {
        &self.name
    }

    /// The table's address family, exactly as supplied at construction.
    pub fn family(&self) -> (r: ProtoFamily)
        ensures
            r == self@.family,
    {
        self.family
    }
}

/// The `NFT_MSG_*` constant a table message of the given operation carries.
pub open spec fn table_msg_type(op: MsgType) -> u16 {
    match op {
        MsgType::Add => wire::NFT_MSG_NEWTABLE,
        MsgType::Del => wire::NFT_MSG_DELTABLE,
    }
}

/// The payload bytes of a table's message: a single attribute carrying the
/// table's name.
pub open spec fn table_payload(t: TableData) -> Seq<u8> {
    wire::str_attr(wire::NFTA_TABLE_NAME, t.name)
}

/// The complete message of a table: the fixed header carrying the message
/// type for the operation, the table's family and the sequence number,
/// followed by the table's payload.
pub open spec fn table_msg(t: TableData, seq_no: u32, op: MsgType) -> Seq<u8> {
    wire::nl_header(
        table_payload(t).len(),
        table_msg_type(op),
        t.family.wire_spec(),
        seq_no,
    ) + table_payload(t)
}

impl NlMsg for Table {
    /// The exact bytes of this table's message: [`table_msg`] of its
    /// abstract state.
    open spec fn msg_bytes(&self, seq_no: u32, msg_type: MsgType) -> Seq<u8> {
        table_msg(self@, seq_no, msg_type)
    }

    /// A table may encode itself whenever it is well formed.
    open spec fn msg_ready(&self) -> bool {
        self.wf()
    }

    fn write(&self, buf: &mut Vec<u8>, seq_no: u32, msg_type: MsgType) {
        let mut payload: Vec<u8> = Vec::new();
        wire::put_str_attr(&mut payload, wire::NFTA_TABLE_NAME, &self.name);
        proof {
            assert(payload@ =~= table_payload(self@));
        }
        let raw_msg_type = match msg_type {
            MsgType::Add => wire::NFT_MSG_NEWTABLE,
            MsgType::Del => wire::NFT_MSG_DELTABLE,
        };
        buf.clear();
        wire::put_nl_header(buf, payload.len(), raw_msg_type, self.family.wire(), seq_no);
        buf.append(&mut payload);
        proof {
            assert(buf@ =~= table_msg(self@, seq_no, msg_type));
        }
    }
}

/// Decides [`wire::valid_name`] for a candidate name: non-empty, within the
/// length cap, and free of embedded null bytes.
pub fn check_name(name: &Vec<u8>) -> (r: bool)
    ensures
        r == wire::valid_name(name@),
{
    if name.len() < 1 || name.len() > wire::MAX_NAME_LEN {
        return false;
    }
    let mut i: usize = 0;
    while i < name.len()
        invariant
            i <= name@.len(),
            forall|k: int| 0 <= k < i ==> name@[k] != 0,
        decreases name@.len() - i,
    {
        if name[i] == 0 {
            return false;
        }
        i += 1;
    }
    true
}

} // verus!
