use vstd::prelude::*;

verus! {

use crate::ascii::{ascii_bytes, str_bytes};
use crate::errors::{Error, ErrorKind};

/// The closed set of HTTP statuses a response can carry.
#[derive(Clone, Copy, PartialEq, Eq, Structural, Debug)]
pub enum Status {
    Okay,
    BadRequest,
    Forbidden,
    NotFound,
    InternalServerError,
}

impl Status {
    /// The numeric code of this status.
    pub open spec fn spec_code(self) -> u16 {
        match self {
            Status::Okay => 200,
            Status::BadRequest => 400,
            Status::Forbidden => 403,
            Status::NotFound => 404,
            Status::InternalServerError => 500,
        }
    }

    /// The canonical reason phrase, as bytes on the wire.
    pub open spec fn spec_reason(self) -> Seq<u8> {
        match self {
            Status::Okay => ascii_bytes("OK"@),
            Status::BadRequest => ascii_bytes("Bad Request"@),
            Status::Forbidden => ascii_bytes("Forbidden"@),
            Status::NotFound => ascii_bytes("Not Found"@),
            Status::InternalServerError => ascii_bytes("Internal Server Error"@),
        }
    }

    pub fn to_u16(&self) -> (r: u16)
        ensures
            r == self.spec_code(),
    {
        match self {
            Status::Okay => 200,
            Status::BadRequest => 400,
            Status::Forbidden => 403,
            Status::NotFound => 404,
            Status::InternalServerError => 500,
        }
    }

    /// The canonical reason phrase for this status.
    pub fn to_string(&self) -> (r: &'static str)
        ensures
            ascii_bytes(r@) == self.spec_reason(),
    {
        match self {
            Status::Okay => "OK",
            Status::BadRequest => "Bad Request",
            Status::Forbidden => "Forbidden",
            Status::NotFound => "Not Found",
            Status::InternalServerError => "Internal Server Error",
        }
    }

    /// The reason phrase as bytes, as emitted on the status line.
    pub fn reason_bytes(&self) -> (r: &'static [u8])
        ensures
            r@ == self.spec_reason(),
    {
        proof {
            reveal_strlit("OK");
            reveal_strlit("Bad Request");
            reveal_strlit("Forbidden");
            reveal_strlit("Not Found");
            reveal_strlit("Internal Server Error");
        }
        match self {
            Status::Okay => str_bytes("OK"),
            Status::BadRequest => str_bytes("Bad Request"),
            Status::Forbidden => str_bytes("Forbidden"),
            Status::NotFound => str_bytes("Not Found"),
            Status::InternalServerError => str_bytes("Internal Server Error"),
        }
    }

    /// Decode a numeric code; exactly the five codes of the closed set are
    /// accepted.
    pub fn from_u16(code: u16) -> (r: Result<Status, Error>)
        ensures
            code == 200 ==> (r matches Ok(s) && s == Status::Okay),
            code == 400 ==> (r matches Ok(s) && s == Status::BadRequest),
            code == 403 ==> (r matches Ok(s) && s == Status::Forbidden),
            code == 404 ==> (r matches Ok(s) && s == Status::NotFound),
            code == 500 ==> (r matches Ok(s) && s == Status::InternalServerError),
            (code != 200 && code != 400 && code != 403 && code != 404 && code != 500)
                ==> (r matches Err(e) && e.spec_kind() == ErrorKind::Server),
    {
        match code {
            200 => Ok(Status::Okay),
            400 => Ok(Status::BadRequest),
            403 => Ok(Status::Forbidden),
            404 => Ok(Status::NotFound),
            500 => Ok(Status::InternalServerError),
            _ => Err(Error::new(ErrorKind::Server, Some("unknown status code"))),
        }
    }
}

} // verus!
