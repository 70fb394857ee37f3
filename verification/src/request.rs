//! Who asks for a read, what for, and how fresh the answer must be.

use vstd::prelude::*;

verus! {

/// The address a request came from.
#[derive(Debug, Clone, Copy, PartialEq, Eq, Structural)]
pub enum ClientIp {
    /// The four octets, most significant first.
    V4(u32),
    /// The sixteen octets, most significant first.
    V6(u128),
}

/// The authenticated caller of a request.
#[derive(Debug, PartialEq, Eq)]
pub struct Identity {
    pub user_id: u32,
    /// The path and query that were asked for.
    pub path_and_query: String,
    pub client_ip: ClientIp,
}

/// How fresh a read has to be.
#[derive(Debug, Clone, Copy, PartialEq, Eq, Structural)]
pub enum Consistency {
    /// What this node has applied.
    Local,
    /// The freshest state of the cluster, which only the primary serves.
    Linearizable,
}

/// What a read asks for.
#[derive(Debug, Clone, Copy, PartialEq, Eq, Structural)]
pub enum ReadCode {
    GetStats,
    GetUser,
    GetUsers,
    GetPersonalAccessTokens,
    GetStream,
    GetStreams,
    GetTopic,
    GetTopics,
    GetConsumerGroups,
    /// The catalog of options, which is static.
    DescribeOptions,
    /// Any other code, with the answer of the binary dispatch on whether it is
    /// exempt from the metadata frontier.
    Dispatched { code: u32, frontier_exempt: bool },
}

impl ReadCode {
    /// A read of this code is held for the metadata frontier.
    pub open spec fn needs_frontier(self) -> bool {
        match self {
            ReadCode::DescribeOptions => false,
            ReadCode::Dispatched { frontier_exempt, .. } => !frontier_exempt,
            _ => true,
        }
    }
}

/// Whether a read of this code is held until the node has applied what the
/// caller was told committed. Every entity read is; the static option catalog
/// is not, since holding a read of it buys nothing.
pub fn read_needs_metadata_frontier(code: ReadCode) -> (needed: bool)
    ensures
        needed == code.needs_frontier(),
        !needed <==> code is DescribeOptions || (code matches ReadCode::Dispatched {
            frontier_exempt,
            ..
        } && frontier_exempt),
{
    match code {
        ReadCode::DescribeOptions => false,
        ReadCode::Dispatched { frontier_exempt, .. } => !frontier_exempt,
        _ => true,
    }
}

} // verus!
