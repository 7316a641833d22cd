use vstd::prelude::*;

use crate::errors::Error;
use crate::rpc::{AgentRequest, AgentResponse};

verus! {

/// The one request that starting a session issues.
pub open spec fn create_session_request_spec(flags: u32) -> AgentRequest {
    AgentRequest::CreateSession { flags }
}

/// The one request that ending a session issues.
pub open spec fn destroy_session_request_spec(session_id: u32) -> AgentRequest {
    AgentRequest::DestroySession { session_id }
}

/// What a session-creation round trip returns: the remote identifier of a
/// session reply; a transport failure or a reply of any other shape is an
/// I/O error.
pub open spec fn session_reply_spec(reply: Option<AgentResponse>) -> Result<u32, Error> {
    match reply {
        Some(AgentResponse::SessionCreated { session_id }) => Ok(session_id),
        _ => Err(Error::IOError),
    }
}

/// Builds the CreateSession request carrying exactly `flags`.
pub fn create_session_request(flags: u32) -> (r: AgentRequest)
    ensures
        r == create_session_request_spec(flags),
{
    AgentRequest::CreateSession { flags }
}

/// Builds the DestroySession request carrying exactly `session_id`.
pub fn destroy_session_request(session_id: u32) -> (r: AgentRequest)
    ensures
        r == destroy_session_request_spec(session_id),
{
    AgentRequest::DestroySession { session_id }
}

/// Reads the reply of a session-creation round trip, exactly as
/// `session_reply_spec` states.
pub fn decode_session_reply(reply: Option<AgentResponse>) -> (r: Result<u32, Error>)
    ensures
        r == session_reply_spec(reply),
{
    match reply {
        Some(AgentResponse::SessionCreated { session_id }) => Ok(session_id),
        _ => Err(Error::IOError),
    }
}

/// A session lifecycle issues exactly one CreateSession request, carrying
/// the flags word unchanged, and one DestroySession request, carrying the
/// identifier of the create reply unchanged — whatever reply the agent
/// gave.
pub proof fn lemma_session_lifecycle(flags: u32, reply: Option<AgentResponse>)
    ensures
        create_session_request_spec(flags) == (AgentRequest::CreateSession { flags }),
        session_reply_spec(reply) matches Ok(id) ==> reply == Some(
            (AgentResponse::SessionCreated { session_id: id }),
        ) && destroy_session_request_spec(id) == (AgentRequest::DestroySession {
            session_id: id,
        }),
{
}

} // verus!
