use vstd::prelude::*;

verus! {

/// One typed request to the remote agent. Every remote operation of the
/// plugin is one request/response round trip carrying exactly these
/// fields; the client keeps no per-call configuration and no local cache.
#[derive(Debug, Clone, PartialEq, Eq)]
pub enum AgentRequest {
    /// Start a remote session with a flags word.
    CreateSession { flags: u32 },
    /// End the remote session with this identifier.
    DestroySession { session_id: u32 },
    /// Upload a model payload; the agent assigns a resource identifier.
    CreateResource { model: Vec<u8> },
    /// Drop the remote resource with this identifier.
    DestroyResource { resource_id: i64 },
    /// Register a resource against a session.
    RegisterResource { resource_id: i64, session_id: u32 },
    /// Undo a registration of a resource against a session.
    UnregisterResource { resource_id: i64, session_id: u32 },
    /// Classify an image within a session; the agent returns tag bytes.
    ImageClassification { session_id: u32, image: Vec<u8> },
}

/// One typed reply from the remote agent.
#[derive(Debug, Clone, PartialEq, Eq)]
pub enum AgentResponse {
    /// The identifier the agent assigned to a new session.
    SessionCreated { session_id: u32 },
    /// The identifier the agent assigned to a new resource.
    ResourceCreated { resource_id: i64 },
    /// The tag bytes of a classification.
    Tags { tags: Vec<u8> },
    /// A reply carrying no fields.
    Done,
}

} // verus!
