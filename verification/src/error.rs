//! The faults the library reports, each with the broad kind it falls under.

use vstd::prelude::*;

verus! {

/// The broad kind of a fault, for callers that only need to tell kinds apart.
#[derive(Clone, Copy, Debug, PartialEq, Eq, Structural)]
pub enum ErrorKind {
    /// What the caller passed in cannot be used.
    InvalidInput,
    /// The bytes received do not form what was expected.
    InvalidData,
    /// No address can be had for the destination.
    AddrNotAvailable,
    /// Anything else.
    Other,
}

/// A fault met while framing, resolving or loading.
#[derive(Clone, Copy, Debug, PartialEq, Eq, Structural)]
pub enum IoError {
    /// A complete request line arrived in a buffer of this many bytes, which
    /// is at or over the frame limit.
    FrameTooLarge(usize),
    /// The buffered bytes are not a CONNECT request.
    InvalidRequest,
    /// The destination buffer cannot take the bytes to be written.
    WriteFailed,
    /// The target has no `:port` part.
    MissingPort,
    /// What follows the target's last `:` is not a port number.
    InvalidPort,
    /// The name lookup failed.
    LookupFailed,
    /// Resolution produced no candidate address.
    NoAddress,
    /// The certificate file is not well-formed PEM.
    InvalidCertificate,
    /// The key file is not well-formed PEM.
    InvalidKey,
}

impl IoError {
    /// The kind each fault falls under.
    pub open spec fn kind_spec(self) -> ErrorKind {
        match self {
            IoError::FrameTooLarge(_) => ErrorKind::InvalidData,
            IoError::InvalidRequest => ErrorKind::InvalidData,
            IoError::WriteFailed => ErrorKind::Other,
            IoError::MissingPort => ErrorKind::InvalidInput,
            IoError::InvalidPort => ErrorKind::InvalidInput,
            IoError::LookupFailed => ErrorKind::Other,
            IoError::NoAddress => ErrorKind::AddrNotAvailable,
            IoError::InvalidCertificate => ErrorKind::InvalidInput,
            IoError::InvalidKey => ErrorKind::InvalidInput,
        }
    }

    /// The kind this fault falls under.
    pub fn kind(&self) -> (kind: ErrorKind)
        ensures
            kind == self.kind_spec(),
    {
        match self {
            IoError::FrameTooLarge(_) => ErrorKind::InvalidData,
            IoError::InvalidRequest => ErrorKind::InvalidData,
            IoError::WriteFailed => ErrorKind::Other,
            IoError::MissingPort => ErrorKind::InvalidInput,
            IoError::InvalidPort => ErrorKind::InvalidInput,
            IoError::LookupFailed => ErrorKind::Other,
            IoError::NoAddress => ErrorKind::AddrNotAvailable,
            IoError::InvalidCertificate => ErrorKind::InvalidInput,
            IoError::InvalidKey => ErrorKind::InvalidInput,
        }
    }

    /// The text that describes each fault.
    pub open spec fn message_spec(self) -> Seq<char> {
        match self {
            IoError::FrameTooLarge(_) => "HTTP frame too large"@,
            IoError::InvalidRequest => "Invalid HTTP request"@,
            IoError::WriteFailed => "write failed"@,
            IoError::MissingPort => "invalid socket address"@,
            IoError::InvalidPort => "invalid port value"@,
            IoError::LookupFailed => "failed to lookup address information"@,
            IoError::NoAddress => "no address available"@,
            IoError::InvalidCertificate => "invalid certificate"@,
            IoError::InvalidKey => "invalid key"@,
        }
    }

    /// A short text that describes this fault.
    pub fn message(&self) -> (text: &'static str)
        ensures
            text@ == self.message_spec(),
    {
        match self {
            IoError::FrameTooLarge(_) => "HTTP frame too large",
            IoError::InvalidRequest => "Invalid HTTP request",
            IoError::WriteFailed => "write failed",
            IoError::MissingPort => "invalid socket address",
            IoError::InvalidPort => "invalid port value",
            IoError::LookupFailed => "failed to lookup address information",
            IoError::NoAddress => "no address available",
            IoError::InvalidCertificate => "invalid certificate",
            IoError::InvalidKey => "invalid key",
        }
    }
}

} // verus!
