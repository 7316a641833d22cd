use vstd::prelude::*;

use crate::errors::{Error, VACCEL_OK};
use crate::image::{image_classification_request_spec, decode_tags_reply, fill_tags, tags_reply_spec};
use crate::resources::{
    destroy_resource_request_spec, decode_empty_reply, decode_resource_reply, empty_reply_spec,
    register_resource_request_spec, resource_reply_spec, unregister_resource_request_spec,
    VaccelResource,
};
use crate::rpc::{AgentRequest, AgentResponse};
use crate::session::{
    create_session_request_spec, decode_session_reply, destroy_session_request_spec,
    session_reply_spec,
};
use crate::tf_model::TensorFlowModel;

verus! {

/// The numeric tag under which the host requests the one supported
/// resource kind, a TensorFlow-style model.
pub const VACCEL_RES_TF_MODEL: u32 = 0;

/// A model payload as the host hands it over: exactly one of a file path
/// to read or an in-memory buffer.
#[derive(Debug, Clone, PartialEq, Eq)]
pub enum ModelPayload {
    /// The path of a model file, to be read fully before upload.
    FromPath(Vec<u8>),
    /// A model already in memory, borrowed for the call.
    FromBuffer(Vec<u8>),
}

/// What a create-resource entry decides before any remote call.
#[derive(Debug, Clone, PartialEq, Eq)]
pub enum ResourceStep {
    /// Refuse with this failure; no remote call is made.
    Refuse(Error),
    /// Read the model file at this path, then continue with its bytes.
    ReadFile(Vec<u8>),
    /// Issue this upload request.
    Upload(AgentRequest),
}

/// Flattens a failure for a status-valued entry: the negated numeric
/// code, so a caller can tell it from the zero of success.
pub fn failure_status(e: Error) -> (r: i32)
    ensures
        r as int == -(e.code_spec() as int),
{
    -(e.code() as i32)
}

/// Flattens a failure for an identifier-valued entry: the negated numeric
/// code, so a caller can tell it from a valid non-negative identifier.
pub fn resource_failure_status(e: Error) -> (r: i64)
    ensures
        r as int == -(e.code_spec() as int),
{
    -(e.code() as i64)
}

/// Decides the session-start entry before any remote call: without the
/// required client pointer it refuses outright, issuing nothing;
/// otherwise it issues the one CreateSession request.
pub fn sess_init_begin(client_present: bool, flags: u32) -> (r: Result<AgentRequest, Error>)
    ensures
        !client_present ==> r == Err::<AgentRequest, Error>(Error::InvalidArgument),
        client_present ==> r == Ok::<AgentRequest, Error>(create_session_request_spec(flags)),
{
    if !client_present {
        return Err(Error::InvalidArgument);
    }
    Ok(crate::session::create_session_request(flags))
}

/// Flattens the outcome of the session-start entry: the remote session
/// identifier cast to signed on success, the negated failure code
/// otherwise.
pub fn sess_init_finish(reply: Option<AgentResponse>) -> (r: i32)
    ensures
        session_reply_spec(reply) matches Ok(id) ==> r == id as i32 && (id <= i32::MAX ==> r
            == id),
        session_reply_spec(reply) matches Err(e) ==> r as int == -(e.code_spec() as int),
{
    match decode_session_reply(reply) {
        Ok(id) => {
            proof {
                assert(id <= 0x7fffffffu32 ==> (id as i32) == id) by (bit_vector);
            }
            #[verifier::truncate] (id as i32)
        },
        Err(e) => failure_status(e),
    }
}

/// Decides the session-end entry before any remote call: without the
/// required client pointer it refuses outright, issuing nothing;
/// otherwise it issues the one DestroySession request.
pub fn sess_free_begin(client_present: bool, session_id: u32) -> (r: Result<AgentRequest, Error>)
    ensures
        !client_present ==> r == Err::<AgentRequest, Error>(Error::InvalidArgument),
        client_present ==> r == Ok::<AgentRequest, Error>(destroy_session_request_spec(session_id)),
{
    if !client_present {
        return Err(Error::InvalidArgument);
    }
    Ok(crate::session::destroy_session_request(session_id))
}

/// Flattens the outcome of a status-valued entry: zero on the empty
/// reply, the negated failure code otherwise.
pub fn status_finish(reply: Option<AgentResponse>) -> (r: i32)
    ensures
        empty_reply_spec(reply) is Ok ==> r == VACCEL_OK,
        empty_reply_spec(reply) matches Err(e) ==> r as int == -(e.code_spec() as int),
{
    match decode_empty_reply(reply) {
        Ok(()) => 0,
        Err(e) => failure_status(e),
    }
}

/// Decides the resource-drop entry before any remote call: without the
/// required client pointer it refuses outright, issuing nothing;
/// otherwise it issues the one DestroyResource request.
pub fn destroy_resource_begin(client_present: bool, resource_id: i64) -> (r: Result<
    AgentRequest,
    Error,
>)
    ensures
        !client_present ==> r == Err::<AgentRequest, Error>(Error::InvalidArgument),
        client_present ==> r == Ok::<AgentRequest, Error>(
            destroy_resource_request_spec(resource_id),
        ),
{
    if !client_present {
        return Err(Error::InvalidArgument);
    }
    Ok(crate::resources::destroy_resource_request(resource_id))
}

/// Decides the register entry before any remote call: without the
/// required client pointer it refuses outright, issuing nothing;
/// otherwise it issues the one RegisterResource request with the exact
/// pair supplied.
pub fn register_resource_begin(
    client_present: bool,
    resource_id: i64,
    session_id: u32,
) -> (r: Result<AgentRequest, Error>)
    ensures
        !client_present ==> r == Err::<AgentRequest, Error>(Error::InvalidArgument),
        client_present ==> r == Ok::<AgentRequest, Error>(
            register_resource_request_spec(resource_id, session_id),
        ),
{
    if !client_present {
        return Err(Error::InvalidArgument);
    }
    Ok(crate::resources::register_resource_request(resource_id, session_id))
}

/// Decides the unregister entry before any remote call: without the
/// required client pointer it refuses outright, issuing nothing;
/// otherwise it issues the one UnregisterResource request with the exact
/// pair supplied.
pub fn unregister_resource_begin(
    client_present: bool,
    resource_id: i64,
    session_id: u32,
) -> (r: Result<AgentRequest, Error>)
    ensures
        !client_present ==> r == Err::<AgentRequest, Error>(Error::InvalidArgument),
        client_present ==> r == Ok::<AgentRequest, Error>(
            unregister_resource_request_spec(resource_id, session_id),
        ),
{
    if !client_present {
        return Err(Error::InvalidArgument);
    }
    Ok(crate::resources::unregister_resource_request(resource_id, session_id))
}

/// Flattens the outcome of the resource-creation entry: the remote
/// resource identifier on success, the negated failure code otherwise.
pub fn resource_finish(reply: Option<AgentResponse>) -> (r: i64)
    ensures
        resource_reply_spec(reply) matches Ok(id) ==> r == id,
        resource_reply_spec(reply) matches Err(e) ==> r as int == -(e.code_spec() as int),
{
    match decode_resource_reply(reply) {
        Ok(id) => id,
        Err(e) => resource_failure_status(e),
    }
}

/// Decides the classification entry before any remote call: without the
/// client, image and output-buffer pointers it refuses outright, issuing
/// nothing; otherwise it issues the one ImageClassification request
/// carrying exactly the session identifier and image supplied.
pub fn image_classify_begin(
    client_present: bool,
    image_present: bool,
    out_present: bool,
    session_id: u32,
    image: Vec<u8>,
) -> (r: Result<AgentRequest, Error>)
    ensures
        !(client_present && image_present && out_present) ==> r == Err::<AgentRequest, Error>(
            Error::InvalidArgument,
        ),
        client_present && image_present && out_present ==> r == Ok::<AgentRequest, Error>(
            image_classification_request_spec(session_id, image),
        ),
{
    if !(client_present && image_present && out_present) {
        return Err(Error::InvalidArgument);
    }
    Ok(crate::image::image_classification_request(session_id, image))
}

/// Flattens the outcome of the classification entry into the caller's
/// fixed-capacity buffer: on a tags reply that fits, the buffer holds the
/// tags and the entry reports success; a reply too large for the buffer
/// is refused whole; any other outcome leaves the buffer untouched and
/// reports the negated failure code.
pub fn image_classify_finish(reply: Option<AgentResponse>, out: &mut Vec<u8>) -> (r: i32)
    ensures
        tags_reply_spec(reply) matches Err(e) ==> r as int == -(e.code_spec() as int)
            && final(out)@ == old(out)@,
        tags_reply_spec(reply) matches Ok(tags) ==> {
            &&& tags@.len() > old(out)@.len() ==> r as int == -(
            Error::BufferTooSmall.code_spec() as int) && final(out)@ == old(out)@
            &&& tags@.len() <= old(out)@.len() ==> r == VACCEL_OK
                && final(out)@ == tags@ + old(out)@.skip(tags@.len() as int)
        },
{
    match decode_tags_reply(reply) {
        Ok(tags) => match fill_tags(out, &tags) {
            Ok(_) => 0,
            Err(e) => failure_status(e),
        },
        Err(e) => failure_status(e),
    }
}

/// Decides the resource-creation entry before any remote call: a missing
/// payload or client pointer is refused outright; a resource kind other
/// than the TensorFlow model kind is refused as unsupported before
/// anything else happens; a file-backed payload asks for the file to be
/// read first; an in-memory payload becomes the one upload request
/// carrying its bytes unmodified.
pub fn create_resource_begin(
    client_present: bool,
    payload: Option<ModelPayload>,
    kind: u32,
) -> (r: ResourceStep)
    ensures
        payload is None ==> r == ResourceStep::Refuse(Error::InvalidArgument),
        payload is Some && !client_present ==> r == ResourceStep::Refuse(Error::InvalidArgument),
        payload is Some && client_present && kind != VACCEL_RES_TF_MODEL ==> r
            == ResourceStep::Refuse(Error::NotSupported),
        payload matches Some(ModelPayload::FromPath(path)) ==> client_present ==> kind
            == VACCEL_RES_TF_MODEL ==> {
            &&& r matches ResourceStep::ReadFile(q)
            &&& q@ == path@
        },
        payload matches Some(ModelPayload::FromBuffer(bytes)) ==> client_present ==> kind
            == VACCEL_RES_TF_MODEL ==> {
            &&& r matches ResourceStep::Upload(req)
            &&& req matches AgentRequest::CreateResource { model }
            &&& model@ == bytes@
        },
{
    let payload = match payload {
        None => {
            return ResourceStep::Refuse(Error::InvalidArgument);
        },
        Some(p) => p,
    };
    if !client_present {
        return ResourceStep::Refuse(Error::InvalidArgument);
    }
    if kind != VACCEL_RES_TF_MODEL {
        return ResourceStep::Refuse(Error::NotSupported);
    }
    match payload {
        ModelPayload::FromPath(path) => ResourceStep::ReadFile(path),
        ModelPayload::FromBuffer(bytes) => {
            let model = match TensorFlowModel::from_vec(&bytes) {
                Ok(m) => m,
                Err(e) => {
                    return ResourceStep::Refuse(e);
                },
            };
            proof {
                crate::tf_model::lemma_resource_roundtrip(model, None);
            }
            match model.create_resource_request() {
                Ok(req) => ResourceStep::Upload(req),
                Err(e) => ResourceStep::Refuse(e),
            }
        },
    }
}

/// Continues the resource-creation entry once a file-backed payload has
/// been read: the bytes become the one upload request carrying them
/// unmodified; a failed read is an I/O error.
pub fn create_resource_continue(file: Option<Vec<u8>>) -> (r: Result<AgentRequest, Error>)
    ensures
        file is None ==> r == Err::<AgentRequest, Error>(Error::IOError),
        file matches Some(bytes) ==> {
            &&& r matches Ok(req)
            &&& req matches AgentRequest::CreateResource { model }
            &&& model@ == bytes@
        },
{
    match file {
        None => Err(Error::IOError),
        Some(bytes) => {
            let model = match TensorFlowModel::from_vec(&bytes) {
                Ok(m) => m,
                Err(e) => {
                    return Err(e);
                },
            };
            proof {
                crate::tf_model::lemma_resource_roundtrip(model, None);
            }
            model.create_resource_request()
        },
    }
}

} // verus!
