use vstd::prelude::*;

use crate::errors::Error;
use crate::rpc::{AgentRequest, AgentResponse};

verus! {

/// A local resource shape that can be normalized into one create-resource
/// request before the single upload round trip. Implementors state in
/// `request_spec` exactly which request they build.
pub trait VaccelResource: Sized {
    /// The request that uploading this resource issues, or the failure
    /// that refuses it.
    spec fn request_spec(self) -> Result<AgentRequest, Error>;

    /// Builds the create-resource request for this resource.
    fn create_resource_request(self) -> (r: Result<AgentRequest, Error>)
        ensures
            r == self.request_spec(),
    ;
}

/// The one request that dropping a resource issues.
pub open spec fn destroy_resource_request_spec(resource_id: i64) -> AgentRequest {
    AgentRequest::DestroyResource { resource_id }
}

/// The one request that registering a resource against a session issues.
pub open spec fn register_resource_request_spec(resource_id: i64, session_id: u32) -> AgentRequest {
    AgentRequest::RegisterResource { resource_id, session_id }
}

/// The one request that unregistering a resource from a session issues.
pub open spec fn unregister_resource_request_spec(
    resource_id: i64,
    session_id: u32,
) -> AgentRequest {
    AgentRequest::UnregisterResource { resource_id, session_id }
}

/// What a resource-creation round trip returns: the remote identifier of
/// a resource reply; a transport failure or a reply of any other shape is
/// an I/O error.
pub open spec fn resource_reply_spec(reply: Option<AgentResponse>) -> Result<i64, Error> {
    match reply {
        Some(AgentResponse::ResourceCreated { resource_id }) => Ok(resource_id),
        _ => Err(Error::IOError),
    }
}

/// What a status-only round trip returns: success on the empty reply; a
/// transport failure or a reply of any other shape is an I/O error.
pub open spec fn empty_reply_spec(reply: Option<AgentResponse>) -> Result<(), Error> {
    match reply {
        Some(AgentResponse::Done) => Ok(()),
        _ => Err(Error::IOError),
    }
}

/// Builds the DestroyResource request carrying exactly `resource_id`.
pub fn destroy_resource_request(resource_id: i64) -> (r: AgentRequest)
    ensures
        r == destroy_resource_request_spec(resource_id),
{
    AgentRequest::DestroyResource { resource_id }
}

/// Builds the RegisterResource request carrying exactly the pair supplied.
pub fn register_resource_request(resource_id: i64, session_id: u32) -> (r: AgentRequest)
    ensures
        r == register_resource_request_spec(resource_id, session_id),
{
    AgentRequest::RegisterResource { resource_id, session_id }
}

/// Builds the UnregisterResource request carrying exactly the pair
/// supplied.
pub fn unregister_resource_request(resource_id: i64, session_id: u32) -> (r: AgentRequest)
    ensures
        r == unregister_resource_request_spec(resource_id, session_id),
{
    AgentRequest::UnregisterResource { resource_id, session_id }
}

/// Reads the reply of a resource-creation round trip, exactly as
/// `resource_reply_spec` states.
pub fn decode_resource_reply(reply: Option<AgentResponse>) -> (r: Result<i64, Error>)
    ensures
        r == resource_reply_spec(reply),
{
    match reply {
        Some(AgentResponse::ResourceCreated { resource_id }) => Ok(resource_id),
        _ => Err(Error::IOError),
    }
}

/// Reads the reply of a status-only round trip, exactly as
/// `empty_reply_spec` states.
pub fn decode_empty_reply(reply: Option<AgentResponse>) -> (r: Result<(), Error>)
    ensures
        r == empty_reply_spec(reply),
{
    match reply {
        Some(AgentResponse::Done) => Ok(()),
        _ => Err(Error::IOError),
    }
}

/// Register and unregister each issue exactly one request carrying the
/// exact pair supplied. The requests are functions of the pair alone: no
/// local state conditions them, so earlier calls cannot change what a
/// later call sends.
pub proof fn lemma_registration_exact(resource_id: i64, session_id: u32)
    ensures
        register_resource_request_spec(resource_id, session_id) == (AgentRequest::RegisterResource {
            resource_id,
            session_id,
        }),
        unregister_resource_request_spec(resource_id, session_id)
            == (AgentRequest::UnregisterResource { resource_id, session_id }),
{
}

} // verus!
