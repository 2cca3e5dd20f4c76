//! Configuration objects for the nftables in-kernel packet filter, and their
//! netlink wire encoding.
//!
//! A [`table::Table`] is the top-level namespace object; [`chain::Chain`]s
//! live inside a table and may register as kernel hook entry points. Every
//! configuration object implements [`msg::NlMsg`], which turns the object
//! into a binary netlink message tagged with an operation and a sequence
//! number. The byte layout of each message is pinned down, byte for byte, by
//! the specification functions in [`wire`] and the `ensures` clauses of the
//! encoders.

pub mod chain;
pub mod error;
pub mod laws;
pub mod msg;
pub mod table;
pub mod wire;

pub use chain::{Chain, Hook, Policy, Priority};
pub use error::ErrorKind;
pub use msg::{MsgType, NlMsg};
pub use table::{ProtoFamily, Table};
