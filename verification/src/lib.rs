//! Client-side layer of a vsock transport plugin for accelerated-compute
//! calls: it resolves a textual endpoint descriptor, marshals session,
//! resource and inference operations into typed requests for a remote agent,
//! decodes the agent's replies, and flattens typed failures into the stable
//! numeric codes that cross the C boundary.
//!
//! The layer is purely synchronous and carries no timeout: a call blocks
//! until the remote agent replies or the transport fails. That gap is a
//! documented design limit of the protocol, not a configurable option here.

pub mod abi;
pub mod endpoint;
pub mod errors;
pub mod image;
pub mod resources;
pub mod rpc;
pub mod session;
pub mod tf_model;
