use vaccel_vsock::image::{decode_tags_reply, fill_tags, image_classification_request};
use vaccel_vsock::errors::Error;
use vaccel_vsock::resources::{
    decode_empty_reply, decode_resource_reply, destroy_resource_request,
    register_resource_request, unregister_resource_request, VaccelResource,
};
use vaccel_vsock::rpc::{AgentRequest, AgentResponse};
use vaccel_vsock::session::{create_session_request, decode_session_reply, destroy_session_request};
use vaccel_vsock::tf_model::TensorFlowModel;

#[test]
fn session_round_trip_echoes_identifier() {
    assert_eq!(
        create_session_request(7),
        AgentRequest::CreateSession { flags: 7 }
    );
    let id = decode_session_reply(Some(AgentResponse::SessionCreated { session_id: 42 }))
        .expect("session reply carries the identifier");
    assert_eq!(id, 42);
    assert_eq!(
        destroy_session_request(id),
        AgentRequest::DestroySession { session_id: 42 }
    );
}

#[test]
fn session_reply_failures_are_io_errors() {
    assert_eq!(decode_session_reply(None), Err(Error::IOError));
    assert_eq!(
        decode_session_reply(Some(AgentResponse::Done)),
        Err(Error::IOError)
    );
}

#[test]
fn resource_round_trip_carries_buffer_and_identifier() {
    let buffer: Vec<u8> = vec![1, 2, 3, 4, 5];
    let model = TensorFlowModel::from_vec(&buffer).expect("a buffer always wraps");
    assert_eq!(
        model.create_resource_request(),
        Ok(AgentRequest::CreateResource { model: vec![1, 2, 3, 4, 5] })
    );
    let id = decode_resource_reply(Some(AgentResponse::ResourceCreated { resource_id: 9 }))
        .expect("resource reply carries the identifier");
    assert_eq!(id, 9);
    assert_eq!(
        destroy_resource_request(id),
        AgentRequest::DestroyResource { resource_id: 9 }
    );
}

#[test]
fn resource_reply_failures_are_io_errors() {
    assert_eq!(decode_resource_reply(None), Err(Error::IOError));
    assert_eq!(
        decode_resource_reply(Some(AgentResponse::Done)),
        Err(Error::IOError)
    );
}

#[test]
fn registration_carries_exact_pair() {
    assert_eq!(
        register_resource_request(9, 42),
        AgentRequest::RegisterResource { resource_id: 9, session_id: 42 }
    );
    assert_eq!(
        unregister_resource_request(9, 42),
        AgentRequest::UnregisterResource { resource_id: 9, session_id: 42 }
    );
    // No local state conditions the request: a repeated call sends the same.
    assert_eq!(
        register_resource_request(9, 42),
        AgentRequest::RegisterResource { resource_id: 9, session_id: 42 }
    );
}

#[test]
fn empty_reply_decodes_to_success() {
    assert_eq!(decode_empty_reply(Some(AgentResponse::Done)), Ok(()));
    assert_eq!(decode_empty_reply(None), Err(Error::IOError));
    assert_eq!(
        decode_empty_reply(Some(AgentResponse::SessionCreated { session_id: 1 })),
        Err(Error::IOError)
    );
}

#[test]
fn classification_request_carries_session_and_image() {
    let image: Vec<u8> = vec![10, 20, 30];
    assert_eq!(
        image_classification_request(5, image),
        AgentRequest::ImageClassification { session_id: 5, image: vec![10, 20, 30] }
    );
}

#[test]
fn tags_reply_decodes_to_tags() {
    assert_eq!(
        decode_tags_reply(Some(AgentResponse::Tags { tags: vec![99] })),
        Ok(vec![99])
    );
    assert_eq!(decode_tags_reply(None), Err(Error::IOError));
}

#[test]
fn fill_tags_copies_whole_result() {
    let mut out: Vec<u8> = vec![0, 0, 0, 0, 0];
    let copied = fill_tags(&mut out, &vec![7, 8, 9]).expect("the result fits");
    assert_eq!(copied, 3);
    assert_eq!(out, vec![7, 8, 9, 0, 0]);
}

#[test]
fn fill_tags_fills_exact_capacity() {
    let mut out: Vec<u8> = vec![0, 0, 0];
    let copied = fill_tags(&mut out, &vec![4, 5, 6]).expect("the result fits");
    assert_eq!(copied, 3);
    assert_eq!(out, vec![4, 5, 6]);
}

#[test]
fn fill_tags_refuses_oversized_result() {
    let mut out: Vec<u8> = vec![1, 2];
    assert_eq!(
        fill_tags(&mut out, &vec![7, 8, 9]),
        Err(Error::BufferTooSmall)
    );
    assert_eq!(out, vec![1, 2]);
}
