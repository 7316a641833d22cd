use vstd::prelude::*;
use vstd::slice::slice_to_vec;

use crate::errors::Error;
use crate::resources::{
    destroy_resource_request_spec, resource_reply_spec, VaccelResource,
};
use crate::rpc::{AgentRequest, AgentResponse};

verus! {

/// A TensorFlow-style model held in memory, the one resource kind the
/// plugin can upload.
#[derive(Debug, Clone, PartialEq, Eq)]
pub struct TensorFlowModel {
    data: Vec<u8>,
}

impl View for TensorFlowModel {
    type V = Seq<u8>;

    closed spec fn view(&self) -> Seq<u8> {
        self.data@
    }
}

impl TensorFlowModel {
    /// Wraps an in-memory model buffer. The buffer is borrowed and copied,
    /// never consumed.
    pub fn from_vec(buf: &Vec<u8>) -> (r: Result<TensorFlowModel, Error>)
        ensures
            r matches Ok(m) && m@ == buf@,
    {
        Ok(TensorFlowModel { data: slice_to_vec(buf.as_slice()) })
    }
}

impl VaccelResource for TensorFlowModel {
    /// Uploading a model issues the one create-resource request carrying
    /// its bytes unmodified.
    closed spec fn request_spec(self) -> Result<AgentRequest, Error> {
        Ok(AgentRequest::CreateResource { model: self.data })
    }

    fn create_resource_request(self) -> (r: Result<AgentRequest, Error>)
        ensures
            r == self.request_spec(),
    {
        Ok(AgentRequest::CreateResource { model: self.data })
    }
}

/// A resource round trip: creating a resource from a model issues one
/// request carrying the model bytes unmodified, and destroying it
/// afterwards issues one request carrying the identifier of the create
/// reply unchanged — whatever reply the agent gave.
pub proof fn lemma_resource_roundtrip(model: TensorFlowModel, reply: Option<AgentResponse>)
    ensures
        model.request_spec() is Ok,
        model.request_spec() matches Ok(req) ==> {
            &&& req matches AgentRequest::CreateResource { model: bytes }
            &&& bytes@ == model@
        },
        resource_reply_spec(reply) matches Ok(id) ==> reply == Some(
            (AgentResponse::ResourceCreated { resource_id: id }),
        ) && destroy_resource_request_spec(id) == (AgentRequest::DestroyResource {
            resource_id: id,
        }),
{
}

} // verus!
