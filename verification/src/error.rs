//! The error taxonomy of the library: every recoverable failure a
//! constructor can surface.

use vstd::prelude::*;

verus! {

/// Why a constructor failed. No partial object is ever returned alongside
/// one of these.
#[derive(Debug, Clone, Copy, PartialEq, Eq, Hash, Structural)]
pub enum ErrorKind {
    /// The native resource backing the object could not be acquired.
    AllocationError,
    /// The supplied name is not representable as a wire identifier: empty,
    /// holding an embedded null byte, or too long.
    InvalidName,
}

} // verus!
