//! The errors of the session's operations. Each one is handed back to the
//! caller of the operation and leaves the session as it was.

use vstd::prelude::*;

verus! {

#[derive(Clone, Copy, Debug, PartialEq, Eq, Structural, Hash)]
pub enum TransportError {
    /// The session already holds as many links as it may.
    LinkLimitExceeded,
    /// The link is already part of the session.
    DuplicateLink,
    /// The link is not part of the session.
    LinkNotFound,
}

} // verus!
