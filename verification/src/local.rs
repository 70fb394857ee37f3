//! The answer to a read served from the local metadata.

use crate::error::ReadError;
use crate::request::{ClientIp, Identity, ReadCode};
use bytes::Bytes;
use vstd::prelude::*;

verus! {

/// `bytes::Bytes`, a response body. It is carried through, and nothing is said
/// of what it holds.
#[verifier::external_type_specification]
#[verifier::external_body]
pub struct ExBytes(Bytes);

/// What the response builder finds for a read.
#[derive(Debug, PartialEq, Eq)]
pub enum NonReplicatedResponse {
    /// The entity does not exist.
    Empty,
    /// The body of the response.
    Bytes(Bytes),
}

/// What the response builder is asked.
#[derive(Debug, Clone, Copy, PartialEq, Eq)]
pub struct ResponseQuery<'a> {
    pub code: ReadCode,
    pub body: &'a [u8],
    pub user_id: Option<u32>,
    pub client_ip: ClientIp,
    pub clients_count: u32,
}

/// A read of this code reports the number of connected clients.
pub open spec fn reports_clients(code: ReadCode) -> bool {
    code is GetStats
}

/// Whether the connected clients of all shards have to be gathered before a
/// read is answered: only for a code that reports them, and only once the gates
/// have let the read on.
pub fn needs_client_gather<E>(gate: &Result<(), ReadError<E>>, code: ReadCode) -> (needed: bool)
    ensures
        needed == (gate is Ok && reports_clients(code)),
        needed <==> gate is Ok && code == ReadCode::GetStats,
{
    gate.is_ok() && code == ReadCode::GetStats
}

/// The number of clients a read of this code reports: the connected ones, as
/// many as the count can hold, for the statistics, and none for any other read.
pub open spec fn reported_clients(code: ReadCode, connected: usize) -> u32 {
    if !reports_clients(code) {
        0
    } else if connected <= u32::MAX {
        connected as u32
    } else {
        u32::MAX
    }
}

/// The number of clients a read of this code reports.
pub fn clients_count(code: ReadCode, connected: usize) -> (count: u32)
    ensures
        count == reported_clients(code, connected),
        code != ReadCode::GetStats ==> count == 0,
        code == ReadCode::GetStats && connected <= u32::MAX ==> count == connected,
        code == ReadCode::GetStats && connected > u32::MAX ==> count == u32::MAX,
{
    if code != ReadCode::GetStats {
        0
    } else if connected <= u32::MAX as usize {
        connected as u32
    } else {
        u32::MAX
    }
}

/// The result of a read, given what the response builder found.
pub open spec fn reply_of<E>(response: Result<NonReplicatedResponse, E>) -> Result<
    Bytes,
    ReadError<E>,
> {
    match response {
        Err(error) => Err(ReadError::Rejected(error)),
        Ok(NonReplicatedResponse::Empty) => Err(ReadError::NotFound),
        Ok(NonReplicatedResponse::Bytes(bytes)) => Ok(bytes),
    }
}

/// Turns what the response builder found into the result of the read. An absent
/// entity is not found; a body is handed on as it is.
pub fn read_reply<E>(response: Result<NonReplicatedResponse, E>) -> (reply: Result<
    Bytes,
    ReadError<E>,
>)
    ensures
        reply == reply_of(response),
{
    match response {
        Err(error) => Err(ReadError::Rejected(error)),
        Ok(NonReplicatedResponse::Empty) => Err(ReadError::NotFound),
        Ok(NonReplicatedResponse::Bytes(bytes)) => Ok(bytes),
    }
}

/// What the response builder is asked for a read of this caller.
pub open spec fn query_of<'a>(
    identity: Identity,
    code: ReadCode,
    body: &'a [u8],
    connected: usize,
) -> ResponseQuery<'a> {
    ResponseQuery {
        code,
        body,
        user_id: Some(identity.user_id),
        client_ip: identity.client_ip,
        clients_count: reported_clients(code, connected),
    }
}

/// What becomes of a read, given what the gates came to: a refusal stands, and
/// otherwise the answer is the builder's to the caller's query.
pub open spec fn local_read_answered<
    'a,
    E,
    B: FnOnce(ResponseQuery<'a>) -> Result<NonReplicatedResponse, E>,
>(
    gate: Result<(), ReadError<E>>,
    identity: Identity,
    code: ReadCode,
    body: &'a [u8],
    connected: usize,
    build_non_replicated_response: B,
    result: Result<Bytes, ReadError<E>>,
) -> bool {
    match gate {
        Err(refusal) => result == Err::<Bytes, _>(refusal),
        Ok(()) => exists|response: Result<NonReplicatedResponse, E>| #[trigger]
            call_ensures(
                build_non_replicated_response,
                (query_of(identity, code, body, connected),),
                response,
            ) && result == reply_of(response),
    }
}

/// Serves one authenticated read from the local metadata and hands back the
/// response body. `gate` is what the gates came to, and `connected` the number
/// of clients gathered where the code needs them. A read that a gate refused
/// asks the builder nothing.
pub fn read_local<'a, E, B: FnOnce(ResponseQuery<'a>) -> Result<NonReplicatedResponse, E>>(
    gate: Result<(), ReadError<E>>,
    identity: &Identity,
    code: ReadCode,
    body: &'a [u8],
    connected: usize,
    build_non_replicated_response: B,
) -> (result: Result<Bytes, ReadError<E>>)
    requires
        gate is Ok ==> call_requires(
            build_non_replicated_response,
            (query_of(*identity, code, body, connected),),
        ),
    ensures
        local_read_answered(
            gate,
            *identity,
            code,
            body,
            connected,
            build_non_replicated_response,
            result,
        ),
{
    match gate {
        Err(refusal) => Err(refusal),
        Ok(()) => {
            let query = ResponseQuery {
                code,
                body,
                user_id: Some(identity.user_id),
                client_ip: identity.client_ip,
                clients_count: clients_count(code, connected),
            };
            let response = build_non_replicated_response(query);
            read_reply(response)
        },
    }
}

} // verus!
