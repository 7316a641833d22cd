use vstd::prelude::*;

verus! {

/// Numeric code for success on the C boundary.
pub const VACCEL_OK: u32 = 0;
/// Numeric code for a path that does not resolve.
pub const VACCEL_ENOENT: u32 = 2;
/// Numeric code for a transport, remote or file failure.
pub const VACCEL_EIO: u32 = 5;
/// Numeric code for a malformed argument or a null required pointer.
pub const VACCEL_EINVAL: u32 = 22;
/// Numeric code for an unsupported scheme or resource kind.
pub const VACCEL_ENOTSUP: u32 = 95;
/// Numeric code for a reply larger than the caller's output buffer.
pub const VACCEL_ENOBUFS: u32 = 105;

/// The failure taxonomy of the plugin. Every component reports a typed
/// failure; only the C boundary flattens it to a signed integer code.
#[derive(Clone, Copy, Debug, PartialEq, Eq, Structural)]
pub enum Error {
    /// A malformed endpoint string, an unparseable field, or a null
    /// required pointer at the C boundary.
    InvalidArgument,
    /// An unknown transport scheme or an unknown resource kind.
    NotSupported,
    /// A socket, transport or file failure, or a malformed remote reply.
    IOError,
    /// A referenced path that does not resolve.
    NotFound,
    /// A remote reply larger than the caller-supplied output buffer.
    BufferTooSmall,
}

impl Error {
    /// The stable numeric code of this failure on the C boundary.
    pub open spec fn code_spec(self) -> u32 {
        match self {
            Error::InvalidArgument => VACCEL_EINVAL,
            Error::NotSupported => VACCEL_ENOTSUP,
            Error::IOError => VACCEL_EIO,
            Error::NotFound => VACCEL_ENOENT,
            Error::BufferTooSmall => VACCEL_ENOBUFS,
        }
    }

    /// Returns the stable numeric code of this failure.
    pub fn code(self) -> (r: u32)
        ensures
            r == self.code_spec(),
    {
        match self {
            Error::InvalidArgument => VACCEL_EINVAL,
            Error::NotSupported => VACCEL_ENOTSUP,
            Error::IOError => VACCEL_EIO,
            Error::NotFound => VACCEL_ENOENT,
            Error::BufferTooSmall => VACCEL_ENOBUFS,
        }
    }
}

} // verus!
