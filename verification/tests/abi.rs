use vaccel_vsock::abi::{
    create_resource_begin, create_resource_continue, destroy_resource_begin, failure_status,
    image_classify_begin, image_classify_finish, register_resource_begin, resource_failure_status,
    resource_finish, sess_free_begin, sess_init_begin, sess_init_finish, status_finish,
    unregister_resource_begin, ModelPayload, ResourceStep, VACCEL_RES_TF_MODEL,
};
use vaccel_vsock::errors::Error;
use vaccel_vsock::rpc::{AgentRequest, AgentResponse};

#[test]
fn error_codes_are_stable() {
    assert_eq!(Error::InvalidArgument.code(), 22);
    assert_eq!(Error::IOError.code(), 5);
    assert_eq!(Error::NotFound.code(), 2);
    assert_eq!(Error::NotSupported.code(), 95);
    assert_eq!(Error::BufferTooSmall.code(), 105);
}

#[test]
fn failures_flatten_to_negated_codes() {
    assert_eq!(failure_status(Error::InvalidArgument), -22);
    assert_eq!(failure_status(Error::IOError), -5);
    assert_eq!(failure_status(Error::NotSupported), -95);
    assert_eq!(resource_failure_status(Error::NotFound), -2);
    assert_eq!(resource_failure_status(Error::IOError), -5);
}

#[test]
fn null_client_short_circuits_every_entry() {
    // Each entry refuses before any request value exists, so no remote
    // call can be attempted.
    assert_eq!(sess_init_begin(false, 1), Err(Error::InvalidArgument));
    assert_eq!(sess_free_begin(false, 1), Err(Error::InvalidArgument));
    assert_eq!(destroy_resource_begin(false, 1), Err(Error::InvalidArgument));
    assert_eq!(
        register_resource_begin(false, 1, 2),
        Err(Error::InvalidArgument)
    );
    assert_eq!(
        unregister_resource_begin(false, 1, 2),
        Err(Error::InvalidArgument)
    );
    assert_eq!(
        image_classify_begin(false, true, true, 1, vec![1]),
        Err(Error::InvalidArgument)
    );
    assert_eq!(
        create_resource_begin(false, Some(ModelPayload::FromBuffer(vec![1])), VACCEL_RES_TF_MODEL),
        ResourceStep::Refuse(Error::InvalidArgument)
    );
}

#[test]
fn null_image_or_output_short_circuits_classification() {
    assert_eq!(
        image_classify_begin(true, false, true, 1, vec![]),
        Err(Error::InvalidArgument)
    );
    assert_eq!(
        image_classify_begin(true, true, false, 1, vec![1]),
        Err(Error::InvalidArgument)
    );
}

#[test]
fn entries_issue_exact_requests() {
    assert_eq!(
        sess_init_begin(true, 3),
        Ok(AgentRequest::CreateSession { flags: 3 })
    );
    assert_eq!(
        sess_free_begin(true, 8),
        Ok(AgentRequest::DestroySession { session_id: 8 })
    );
    assert_eq!(
        destroy_resource_begin(true, 4),
        Ok(AgentRequest::DestroyResource { resource_id: 4 })
    );
    assert_eq!(
        register_resource_begin(true, 4, 8),
        Ok(AgentRequest::RegisterResource { resource_id: 4, session_id: 8 })
    );
    assert_eq!(
        unregister_resource_begin(true, 4, 8),
        Ok(AgentRequest::UnregisterResource { resource_id: 4, session_id: 8 })
    );
    assert_eq!(
        image_classify_begin(true, true, true, 6, vec![9, 9]),
        Ok(AgentRequest::ImageClassification { session_id: 6, image: vec![9, 9] })
    );
}

#[test]
fn missing_payload_is_refused_before_anything() {
    assert_eq!(
        create_resource_begin(true, None, VACCEL_RES_TF_MODEL),
        ResourceStep::Refuse(Error::InvalidArgument)
    );
}

#[test]
fn unsupported_resource_kind_is_refused_before_any_call() {
    assert_eq!(
        create_resource_begin(true, Some(ModelPayload::FromBuffer(vec![1])), VACCEL_RES_TF_MODEL + 1),
        ResourceStep::Refuse(Error::NotSupported)
    );
}

#[test]
fn buffer_payload_uploads_bytes_unmodified() {
    assert_eq!(
        create_resource_begin(
            true,
            Some(ModelPayload::FromBuffer(vec![1, 2, 3])),
            VACCEL_RES_TF_MODEL
        ),
        ResourceStep::Upload(AgentRequest::CreateResource { model: vec![1, 2, 3] })
    );
}

#[test]
fn path_payload_asks_for_the_file_first() {
    assert_eq!(
        create_resource_begin(
            true,
            Some(ModelPayload::FromPath(vec![47, 109])),
            VACCEL_RES_TF_MODEL
        ),
        ResourceStep::ReadFile(vec![47, 109])
    );
}

#[test]
fn read_file_outcome_continues_or_fails() {
    assert_eq!(
        create_resource_continue(Some(vec![5, 6])),
        Ok(AgentRequest::CreateResource { model: vec![5, 6] })
    );
    assert_eq!(create_resource_continue(None), Err(Error::IOError));
}

#[test]
fn session_outcome_flattens_to_identifier_or_code() {
    assert_eq!(
        sess_init_finish(Some(AgentResponse::SessionCreated { session_id: 7 })),
        7
    );
    assert_eq!(sess_init_finish(None), -5);
    assert_eq!(sess_init_finish(Some(AgentResponse::Done)), -5);
}

#[test]
fn status_outcome_flattens_to_zero_or_code() {
    assert_eq!(status_finish(Some(AgentResponse::Done)), 0);
    assert_eq!(status_finish(None), -5);
}

#[test]
fn resource_outcome_flattens_to_identifier_or_code() {
    assert_eq!(
        resource_finish(Some(AgentResponse::ResourceCreated { resource_id: 11 })),
        11
    );
    assert_eq!(resource_finish(None), -5);
}

#[test]
fn classification_outcome_fills_the_buffer() {
    let mut out: Vec<u8> = vec![0, 0, 0, 0];
    let code = image_classify_finish(Some(AgentResponse::Tags { tags: vec![1, 2] }), &mut out);
    assert_eq!(code, 0);
    assert_eq!(out, vec![1, 2, 0, 0]);
}

#[test]
fn oversized_classification_outcome_is_refused_whole() {
    let mut out: Vec<u8> = vec![9, 9];
    let code = image_classify_finish(
        Some(AgentResponse::Tags { tags: vec![1, 2, 3] }),
        &mut out,
    );
    assert_eq!(code, -105);
    assert_eq!(out, vec![9, 9]);
}

#[test]
fn failed_classification_outcome_leaves_the_buffer() {
    let mut out: Vec<u8> = vec![9, 9];
    assert_eq!(image_classify_finish(None, &mut out), -5);
    assert_eq!(out, vec![9, 9]);
}
