//! What the operations of this crate owe their callers, in terms of what goes
//! in and what comes out.

pub mod answers;
pub mod lookups;
pub mod operations;
pub mod policies;
pub mod waits;
