//! The outcomes a read can be refused with.

use vstd::prelude::*;

verus! {

/// Why a read was not served. `E` is the error of the rule or of the response
/// builder that turned the read down.
#[derive(Debug, PartialEq, Eq)]
pub enum ReadError<E> {
    /// The caller's permissions, or the response builder, rejected the read.
    Rejected(E),
    /// The entity that was asked for does not exist.
    NotFound,
    /// The recovered log suffix was still unapplied when the deadline passed;
    /// the read may be retried.
    RecoveryIncomplete,
    /// The node did not apply the caller's own writes inside the read budget;
    /// the read may be retried.
    MetadataFrontierUnreached,
    /// A linearizable read reached a follower, and the primary serves it at
    /// this location.
    Redirect(String),
    /// A linearizable read reached a follower that cannot name the primary.
    NotPrimary,
}

} // verus!
