//! Read-path gates of an HTTP metadata plane: the recovery barrier and the
//! read-your-writes hold a local read waits behind, the authorization and
//! consistency check it must pass, the resolution of identifiers to committed
//! slots, and the durability policy a produce may attest.
//!
//! Nothing here waits or talks to a network. A caller performs the waits and
//! hands their outcomes to the functions of this crate, which decide.

pub mod authorize;
pub mod barrier;
pub mod durability;
pub mod error;
pub mod frontier;
pub mod gate;
pub mod laws;
pub mod local;
pub mod metadata;
pub mod request;
pub mod resolve;
