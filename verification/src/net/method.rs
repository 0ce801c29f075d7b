use vstd::prelude::*;

verus! {

use crate::ascii::{ascii_bytes, compare_bytes, str_bytes};

/// The request methods the framing layer recognises on a request line.
#[derive(Clone, Copy, PartialEq, Eq, Structural, Debug)]
pub enum Method {
    Get,
    Post,
    Put,
    Delete,
    Head,
    Options,
    Patch,
}

impl Method {
    /// The method token as it appears on the wire.
    pub open spec fn spec_token(self) -> Seq<u8> {
        match self {
            Method::Get => ascii_bytes("GET"@),
            Method::Post => ascii_bytes("POST"@),
            Method::Put => ascii_bytes("PUT"@),
            Method::Delete => ascii_bytes("DELETE"@),
            Method::Head => ascii_bytes("HEAD"@),
            Method::Options => ascii_bytes("OPTIONS"@),
            Method::Patch => ascii_bytes("PATCH"@),
        }
    }

    /// Which method a token denotes, if any.
    pub open spec fn spec_from_token(t: Seq<u8>) -> Option<Method> {
        if t == ascii_bytes("GET"@) {
            Some(Method::Get)
        } else if t == ascii_bytes("POST"@) {
            Some(Method::Post)
        } else if t == ascii_bytes("PUT"@) {
            Some(Method::Put)
        } else if t == ascii_bytes("DELETE"@) {
            Some(Method::Delete)
        } else if t == ascii_bytes("HEAD"@) {
            Some(Method::Head)
        } else if t == ascii_bytes("OPTIONS"@) {
            Some(Method::Options)
        } else if t == ascii_bytes("PATCH"@) {
            Some(Method::Patch)
        } else {
            None
        }
    }

    pub fn as_str(&self) -> (r: &'static str)
        ensures
            ascii_bytes(r@) == self.spec_token(),
    {
        match self {
            Method::Get => "GET",
            Method::Post => "POST",
            Method::Put => "PUT",
            Method::Delete => "DELETE",
            Method::Head => "HEAD",
            Method::Options => "OPTIONS",
            Method::Patch => "PATCH",
        }
    }

    /// The method token as bytes, as emitted on a request line.
    pub fn token_bytes(&self) -> (r: &'static [u8])
        ensures
            r@ == self.spec_token(),
    {
        proof {
            reveal_strlit("GET");
            reveal_strlit("POST");
            reveal_strlit("PUT");
            reveal_strlit("DELETE");
            reveal_strlit("HEAD");
            reveal_strlit("OPTIONS");
            reveal_strlit("PATCH");
        }
        match self {
            Method::Get => str_bytes("GET"),
            Method::Post => str_bytes("POST"),
            Method::Put => str_bytes("PUT"),
            Method::Delete => str_bytes("DELETE"),
            Method::Head => str_bytes("HEAD"),
            Method::Options => str_bytes("OPTIONS"),
            Method::Patch => str_bytes("PATCH"),
        }
    }

    /// Decode a method token; tokens outside the closed set give `None`.
    pub fn from_token(token: &[u8]) -> (r: Option<Method>)
        ensures
            r == Method::spec_from_token(token@),
    {
        proof {
            reveal_strlit("GET");
            reveal_strlit("POST");
            reveal_strlit("PUT");
            reveal_strlit("DELETE");
            reveal_strlit("HEAD");
            reveal_strlit("OPTIONS");
            reveal_strlit("PATCH");
        }
        if compare_bytes(token, str_bytes("GET")) {
            Some(Method::Get)
        } else if compare_bytes(token, str_bytes("POST")) {
            Some(Method::Post)
        } else if compare_bytes(token, str_bytes("PUT")) {
            Some(Method::Put)
        } else if compare_bytes(token, str_bytes("DELETE")) {
            Some(Method::Delete)
        } else if compare_bytes(token, str_bytes("HEAD")) {
            Some(Method::Head)
        } else if compare_bytes(token, str_bytes("OPTIONS")) {
            Some(Method::Options)
        } else if compare_bytes(token, str_bytes("PATCH")) {
            Some(Method::Patch)
        } else {
            None
        }
    }
}

} // verus!
