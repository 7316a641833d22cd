use vstd::prelude::*;

use crate::errors::Error;
use crate::rpc::{AgentRequest, AgentResponse};

verus! {

/// The one request that a classification call issues: it carries exactly
/// the session identifier and the image bytes supplied.
pub open spec fn image_classification_request_spec(session_id: u32, image: Vec<u8>) -> AgentRequest {
    AgentRequest::ImageClassification { session_id, image }
}

/// What a classification round trip returns: the tag bytes of a tags
/// reply; a transport failure or a reply of any other shape is an I/O
/// error.
pub open spec fn tags_reply_spec(reply: Option<AgentResponse>) -> Result<Vec<u8>, Error> {
    match reply {
        Some(AgentResponse::Tags { tags }) => Ok(tags),
        _ => Err(Error::IOError),
    }
}

/// Builds the ImageClassification request carrying exactly `session_id`
/// and `image`.
pub fn image_classification_request(session_id: u32, image: Vec<u8>) -> (r: AgentRequest)
    ensures
        r == image_classification_request_spec(session_id, image),
{
    AgentRequest::ImageClassification { session_id, image }
}

/// Reads the reply of a classification round trip, exactly as
/// `tags_reply_spec` states.
pub fn decode_tags_reply(reply: Option<AgentResponse>) -> (r: Result<Vec<u8>, Error>)
    ensures
        r == tags_reply_spec(reply),
{
    match reply {
        Some(AgentResponse::Tags { tags }) => Ok(tags),
        _ => Err(Error::IOError),
    }
}

/// Copies the remote tag bytes into the caller's fixed-capacity output
/// buffer. The buffer is never resized: a result larger than the buffer
/// is refused whole, leaving the buffer untouched, rather than written
/// truncated; a smaller result leaves the bytes past it unchanged.
#[verifier::loop_isolation(false)]
pub fn fill_tags(out: &mut Vec<u8>, tags: &Vec<u8>) -> (r: Result<usize, Error>)
    ensures
        tags@.len() > old(out)@.len() ==> r == Err::<usize, Error>(Error::BufferTooSmall)
            && final(out)@ == old(out)@,
        tags@.len() <= old(out)@.len() ==> r == Ok::<usize, Error>(tags.len()) && final(out)@
            == tags@ + old(out)@.skip(tags@.len() as int),
{
    let n: usize = tags.len();
    if n > out.len() {
        return Err(Error::BufferTooSmall);
    }
    let mut i: usize = 0;
    while i < n
        invariant
            i <= n,
            n == tags@.len(),
            n <= out@.len(),
            out@.len() == old(out)@.len(),
            forall|j: int| 0 <= j < i ==> out@[j] == tags@[j],
            forall|j: int| i <= j < out@.len() ==> out@[j] == old(out)@[j],
        decreases n - i,
    {
        out[i] = tags[i];
        i += 1;
    }
    proof {
        assert(out@ =~= tags@ + old(out)@.skip(tags@.len() as int));
    }
    Ok(n)
}

} // verus!
