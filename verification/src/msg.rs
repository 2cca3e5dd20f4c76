//! The message-encoding capability every configuration object implements.

use vstd::prelude::*;

verus! {

/// Which configuration operation a message carries. The operation picks the
/// wire message-type constant of the object kind ("new chain" against
/// "delete chain").
#[derive(Debug, Clone, Copy, PartialEq, Eq, Hash, Structural)]
pub enum MsgType {
    Add,
    Del,
}

/// An object that can encode itself as a binary netlink message.
///
/// `write` fills the caller-owned buffer with exactly the bytes that
/// `msg_bytes` states for the object's current state, the given sequence
/// number and the given operation; it never fails and never mutates the
/// object. `msg_ready` is the precondition under which the object may be
/// asked to encode itself (a well-formed object whose native resource is
/// still held).
pub trait NlMsg {
    /// The exact bytes of this object's message.
    spec fn msg_bytes(&self, seq_no: u32, msg_type: MsgType) -> Seq<u8>;

    /// When the object may be asked to encode itself.
    spec fn msg_ready(&self) -> bool;

    /// Encodes this object into `buf`, replacing its contents.
    fn write(&self, buf: &mut Vec<u8>, seq_no: u32, msg_type: MsgType)
        requires
            self.msg_ready(),
        ensures
            final(buf)@ == self.msg_bytes(seq_no, msg_type),
    ;
}

} // verus!
