use vstd::prelude::*;

verus! {

use crate::byte_array::ByteArray;
use crate::net::status::Status;

/// Longest error message kept alongside an error kind, in bytes.
pub const ERROR_STRING_SIZE: usize = 64;

/// The closed set of failure classes the service distinguishes.  Every error
/// raised while handling a request is mapped onto an HTTP status through
/// [`ErrorKind::to_status`].
#[derive(Clone, Copy, PartialEq, Eq, Structural, Debug)]
pub enum ErrorKind {
    Socket,
    Parse,
    OversizePacket,
    IncompleteRequest,
    ContentLengthMismatch,
    CodeBufferFull,
    PubkeyNotFound,
    KeyMalformed,
    SignatureMalformed,
    SignatureInvalid,
    NonceRegression,
    Server,
}

impl ErrorKind {
    /// The HTTP status a request fails with when an error of this kind
    /// reaches the route boundary.
    pub open spec fn spec_status(self) -> Status {
        match self {
            ErrorKind::Parse => Status::BadRequest,
            ErrorKind::OversizePacket => Status::BadRequest,
            ErrorKind::IncompleteRequest => Status::BadRequest,
            ErrorKind::ContentLengthMismatch => Status::BadRequest,
            ErrorKind::SignatureMalformed => Status::BadRequest,
            ErrorKind::NonceRegression => Status::Forbidden,
            ErrorKind::SignatureInvalid => Status::Forbidden,
            ErrorKind::CodeBufferFull => Status::Forbidden,
            ErrorKind::PubkeyNotFound => Status::NotFound,
            _ => Status::InternalServerError,
        }
    }

    pub fn to_status(&self) -> (r: Status)
        ensures
            r == self.spec_status(),
    {
        match self {
            ErrorKind::Parse => Status::BadRequest,
            ErrorKind::OversizePacket => Status::BadRequest,
            ErrorKind::IncompleteRequest => Status::BadRequest,
            ErrorKind::ContentLengthMismatch => Status::BadRequest,
            ErrorKind::SignatureMalformed => Status::BadRequest,
            ErrorKind::NonceRegression => Status::Forbidden,
            ErrorKind::SignatureInvalid => Status::Forbidden,
            ErrorKind::CodeBufferFull => Status::Forbidden,
            ErrorKind::PubkeyNotFound => Status::NotFound,
            _ => Status::InternalServerError,
        }
    }
}

/// An error: a kind from the closed set, with an optional short message.
/// A message longer than [`ERROR_STRING_SIZE`] bytes is dropped, never
/// truncated.
#[derive(Clone, Debug)]
pub struct Error {
    pub kind: ErrorKind,
    pub message: Option<ByteArray<64>>,
}

impl Error {
    pub open spec fn spec_kind(self) -> ErrorKind {
        self.kind
    }

    pub fn new(kind: ErrorKind, message: Option<&str>) -> (r: Error)
        ensures
            r.spec_kind() == kind,
    {
        let stored: Option<ByteArray<64>> = match message {
            Some(m) => ByteArray::<64>::try_make(m.as_bytes()),
            None => None,
        };
        Error { kind, message: stored }
    }

    pub fn kind(&self) -> (r: ErrorKind)
        ensures
            r == self.spec_kind(),
    {
        self.kind
    }

    /// The message bytes, if a message was attached and fit.
    pub fn message(&self) -> (r: Option<&ByteArray<64>>) {
        self.message.as_ref()
    }

    pub fn to_status(&self) -> (r: Status)
        ensures
            r == self.spec_kind().spec_status(),
    {
        self.kind.to_status()
    }
}

impl From<ErrorKind> for Error {
    fn from(kind: ErrorKind) -> (r: Error) {
        Error { kind, message: None }
    }
}

impl vstd::std_specs::convert::FromSpecImpl<ErrorKind> for Error {
    open spec fn obeys_from_spec() -> bool {
        true
    }

    open spec fn from_spec(kind: ErrorKind) -> Error {
        Error { kind, message: None }
    }
}

} // verus!
