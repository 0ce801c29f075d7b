use vstd::prelude::*;

verus! {

use crate::ascii::{ascii_bytes, str_bytes};
use crate::byte_array::ByteArray;
use crate::decimal::{all_digits, dec_val, format_u128, parse_u128, spec_dec};
use crate::errors::{Error, ErrorKind};
use crate::net::headers::{headers_view, spec_content_length, spec_header_index_from,
    spec_parse_headers, Header, MAX_HEADERS};
use crate::net::request::{add_header_impl, emit_headers, parse_headers, read_body, spec_emit_headers,
    BODY_SIZE};
use crate::net::scan::{find_byte, find_crlf, spec_find_byte, spec_find_crlf};
use crate::net::status::Status;

/// What a well-formed response denotes.
pub struct SpecResponse {
    pub status: Status,
    pub headers: Seq<(Seq<u8>, Seq<u8>)>,
    pub body: Seq<u8>,
}

/// The status a numeric code denotes, if it is in the closed set.
pub open spec fn spec_status_of_code(c: int) -> Option<Status> {
    if c == 200 {
        Some(Status::Okay)
    } else if c == 400 {
        Some(Status::BadRequest)
    } else if c == 403 {
        Some(Status::Forbidden)
    } else if c == 404 {
        Some(Status::NotFound)
    } else if c == 500 {
        Some(Status::InternalServerError)
    } else {
        None
    }
}

/// The response grammar: a status line `HTTP/1.1 SP code [SP reason] CRLF`
/// whose code is one of the five known statuses, then headers and body
/// exactly as in a request.  The reason phrase is not checked.
pub open spec fn spec_parse_response(s: Seq<u8>) -> Result<SpecResponse, ErrorKind> {
    match spec_find_crlf(s, 0) {
        None => Err(ErrorKind::IncompleteRequest),
        Some(le) => {
            if le < 9 || s.subrange(0, 9) != ascii_bytes("HTTP/1.1 "@) {
                Err(ErrorKind::Parse)
            } else {
                let code_end = match spec_find_byte(s, 32, 9, le) {
                    Some(sp) => sp,
                    None => le,
                };
                let code = s.subrange(9, code_end);
                if !(code.len() > 0 && all_digits(code) && dec_val(code) <= u16::MAX) {
                    Err(ErrorKind::Parse)
                } else {
                    match spec_status_of_code(dec_val(code)) {
                        None => Err(ErrorKind::Parse),
                        Some(st) => match spec_parse_headers(s, le + 2, Seq::empty()) {
                            Err(k) => Err(k),
                            Ok((hs, body_start)) => {
                                let cl = spec_content_length(hs);
                                if cl > BODY_SIZE || body_start + cl > s.len() {
                                    Err(ErrorKind::ContentLengthMismatch)
                                } else {
                                    Ok(SpecResponse {
                                        status: st,
                                        headers: hs,
                                        body: s.subrange(body_start, body_start + cl),
                                    })
                                }
                            },
                        },
                    }
                }
            }
        },
    }
}

/// A response at rest: a status from the closed set, up to 16 headers, and a
/// body of at most 2 KiB.
#[derive(Debug)]
pub struct Response {
    pub status: Status,
    pub headers: Vec<Header>,
    pub body: ByteArray<2048>,
}

impl Response {
    pub open spec fn wf(&self) -> bool {
        &&& self.headers@.len() <= MAX_HEADERS
        &&& (forall|i: int| 0 <= i < self.headers@.len() ==> (#[trigger] self.headers@[i]).wf())
        &&& self.body.wf()
    }

    /// The exact bytes this response is written as: the status line with the
    /// canonical reason phrase, each header, the mandatory `Content-Length`,
    /// a blank line, and the body.
    pub open spec fn spec_emit(&self) -> Seq<u8> {
        ascii_bytes("HTTP/1.1 "@) + spec_dec(self.status.spec_code() as int) + ascii_bytes(" "@)
            + self.status.spec_reason() + ascii_bytes("\r\n"@) + spec_emit_headers(
            headers_view(self.headers@),
            0,
        ) + ascii_bytes("Content-Length: "@) + spec_dec(self.body@.len() as int) + ascii_bytes(
            "\r\n\r\n"@,
        ) + self.body@
    }

    pub fn new(status: Status) -> (r: Response)
        ensures
            r.status == status,
            r.headers@.len() == 0,
            r.body@ == Seq::<u8>::empty(),
            r.wf(),
    {
        Response { status, headers: Vec::new(), body: ByteArray::new() }
    }

    pub fn builder() -> (r: ResponseBuilder)
        ensures
            r.resp.status == Status::Okay,
            r.resp.headers@.len() == 0,
            r.resp.body@ == Seq::<u8>::empty(),
            r.resp.wf(),
    {
        ResponseBuilder { resp: Response::new(Status::Okay) }
    }

    pub fn status(&self) -> (r: Status)
        ensures
            r == self.status,
    {
        self.status
    }

    /// Set `name` to `value`: replaces the value of the first header of that
    /// name, else appends; fails when the name or value is over-long or all
    /// 16 slots are taken.
    pub fn add_header(&mut self, name: &[u8], value: &[u8]) -> (r: Result<(), Error>)
        requires
            old(self).wf(),
        ensures
            final(self).wf(),
            final(self).status == old(self).status,
            final(self).body == old(self).body,
            name@.len() > 32 || value@.len() > 128 ==> (r matches Err(e)
                && e.spec_kind() == ErrorKind::Server && final(self).headers@ == old(self).headers@),
            name@.len() <= 32 && value@.len() <= 128 ==> match spec_header_index_from(
                headers_view(old(self).headers@),
                name@,
                0,
            ) {
                Some(ix) => r matches Ok(()) && headers_view(final(self).headers@)
                    == headers_view(old(self).headers@).update(ix, (name@, value@)),
                None => {
                    if old(self).headers@.len() < MAX_HEADERS {
                        r matches Ok(()) && headers_view(final(self).headers@)
                            == headers_view(old(self).headers@).push((name@, value@))
                    } else {
                        r matches Err(e) && e.spec_kind() == ErrorKind::Server
                            && final(self).headers@ == old(self).headers@
                    }
                },
            },
    {
        add_header_impl(&mut self.headers, name, value)
    }

    /// Append to the body; fails iff the result would pass 2 KiB, and then
    /// leaves the response unchanged.
    pub fn append_body(&mut self, bytes: &[u8]) -> (r: Result<(), Error>)
        requires
            old(self).wf(),
        ensures
            final(self).wf(),
            final(self).status == old(self).status,
            final(self).headers == old(self).headers,
            old(self).body@.len() + bytes@.len() <= BODY_SIZE ==> (r matches Ok(())
                && final(self).body@ == old(self).body@ + bytes@),
            old(self).body@.len() + bytes@.len() > BODY_SIZE ==> (r matches Err(e)
                && e.spec_kind() == ErrorKind::Server && final(self).body@ == old(self).body@),
    {
        self.body.append_slice(bytes)
    }

    /// Write the response out, byte-exact to [`Response::spec_emit`].
    pub fn to_bytes(&self) -> (r: Vec<u8>)
        requires
            self.wf(),
        ensures
            r@ == self.spec_emit(),
    {
        let mut out: Vec<u8> = Vec::new();
        proof {
            reveal_strlit("HTTP/1.1 ");
            reveal_strlit(" ");
            reveal_strlit("Content-Length: ");
            reveal_strlit("\r\n");
            reveal_strlit("\r\n\r\n");
            assert(vstd::string::is_ascii("HTTP/1.1 "));
            assert(vstd::string::is_ascii(" "));
            assert(vstd::string::is_ascii("Content-Length: "));
            assert(vstd::string::is_ascii("\r\n"));
            assert(vstd::string::is_ascii("\r\n\r\n"));
        }
        out.extend_from_slice(str_bytes("HTTP/1.1 "));
        let code_dec = format_u128(self.status.to_u16() as u128);
        out.extend_from_slice(code_dec.as_slice());
        out.extend_from_slice(str_bytes(" "));
        out.extend_from_slice(self.status.reason_bytes());
        out.extend_from_slice(str_bytes("\r\n"));
        emit_headers(&mut out, &self.headers);
        out.extend_from_slice(str_bytes("Content-Length: "));
        let len_dec = format_u128(self.body.len() as u128);
        out.extend_from_slice(len_dec.as_slice());
        out.extend_from_slice(str_bytes("\r\n\r\n"));
        out.extend_from_slice(self.body.as_bytes());
        proof {
            assert(out@ =~= self.spec_emit());
        }
        out
    }

    /// Parse an accumulated buffer as a response, byte-exact to
    /// [`spec_parse_response`].
    pub fn from_bytes(buf: &[u8]) -> (r: Result<Response, Error>)
        ensures
            spec_parse_response(buf@) matches Ok(m) ==> (r matches Ok(resp) && resp.wf()
                && resp.status == m.status && headers_view(resp.headers@) == m.headers
                && resp.body@ == m.body),
            spec_parse_response(buf@) matches Err(k) ==> (r matches Err(e) && e.spec_kind() == k),
    {
        let buf_len = buf.len();
        let le = match find_crlf(buf, 0) {
            Some(le) => le,
            None => {
                return Err(Error::new(ErrorKind::IncompleteRequest, Some("no status line")));
            },
        };
        proof {
            reveal_strlit("HTTP/1.1 ");
            assert(vstd::string::is_ascii("HTTP/1.1 "));
        }
        if le < 9 || !crate::ascii::compare_bytes(&buf[0..9], str_bytes("HTTP/1.1 ")) {
            return Err(Error::new(ErrorKind::Parse, Some("malformed status line")));
        }
        let code_end = match find_byte(buf, 32, 9, le) {
            Some(sp) => sp,
            None => le,
        };
        let code128 = match parse_u128(&buf[9..code_end]) {
            Some(v) => v,
            None => {
                return Err(Error::new(ErrorKind::Parse, Some("malformed status code")));
            },
        };
        if code128 > u16::MAX as u128 {
            return Err(Error::new(ErrorKind::Parse, Some("malformed status code")));
        }
        let status = match Status::from_u16(code128 as u16) {
            Ok(st) => st,
            Err(_) => {
                return Err(Error::new(ErrorKind::Parse, Some("unknown status code")));
            },
        };
        let (headers, body_start) = match parse_headers(buf, le + 2) {
            Ok(p) => p,
            Err(e) => {
                return Err(e);
            },
        };
        let body = match read_body(buf, &headers, body_start) {
            Ok(b) => b,
            Err(e) => {
                return Err(e);
            },
        };
        Ok(Response { status, headers, body })
    }
}

/// Build a response a piece at a time; the status defaults to 200.
pub struct ResponseBuilder {
    pub resp: Response,
}

impl ResponseBuilder {
    pub open spec fn spec_resp(&self) -> Response {
        self.resp
    }

    pub fn status(self, status: Status) -> (r: Self)
        requires
            self.spec_resp().wf(),
        ensures
            r.spec_resp().wf(),
            r.spec_resp().status == status,
            r.spec_resp().headers == self.spec_resp().headers,
            r.spec_resp().body == self.spec_resp().body,
    {
        let mut resp = self.resp;
        resp.status = status;
        ResponseBuilder { resp }
    }

    pub fn add_header(self, name: &[u8], value: &[u8]) -> (r: Result<Self, Error>)
        requires
            self.spec_resp().wf(),
        ensures
            r matches Ok(b) ==> b.spec_resp().wf() && b.spec_resp().status
                == self.spec_resp().status && b.spec_resp().body == self.spec_resp().body,
            name@.len() <= 32 && value@.len() <= 128
                && spec_header_index_from(headers_view(self.spec_resp().headers@), name@, 0) is None
                && self.spec_resp().headers@.len() < MAX_HEADERS ==> (r matches Ok(b)
                && headers_view(b.spec_resp().headers@)
                == headers_view(self.spec_resp().headers@).push((name@, value@))),
    {
        let mut resp = self.resp;
        match resp.add_header(name, value) {
            Ok(()) => Ok(ResponseBuilder { resp }),
            Err(e) => Err(e),
        }
    }

    /// Append to the body; fails if the result would pass 2 KiB.
    pub fn append_body(self, body: &[u8]) -> (r: Result<Self, Error>)
        requires
            self.spec_resp().wf(),
        ensures
            r matches Ok(b) ==> b.spec_resp().wf() && b.spec_resp().body@
                == self.spec_resp().body@ + body@ && b.spec_resp().status
                == self.spec_resp().status && b.spec_resp().headers == self.spec_resp().headers,
            self.spec_resp().body@.len() + body@.len() <= BODY_SIZE ==> r is Ok,
    {
        let mut resp = self.resp;
        match resp.body.append_slice(body) {
            Ok(()) => Ok(ResponseBuilder { resp }),
            Err(e) => Err(e),
        }
    }

    /// Replace the body.
    pub fn body(self, body: &[u8]) -> (r: Self)
        requires
            self.spec_resp().wf(),
            body@.len() <= BODY_SIZE,
        ensures
            r.spec_resp().wf(),
            r.spec_resp().body@ == body@,
            r.spec_resp().status == self.spec_resp().status,
            r.spec_resp().headers == self.spec_resp().headers,
    {
        let mut resp = self.resp;
        let _ = resp.body.copy_from_slice(body);
        ResponseBuilder { resp }
    }

    pub fn build(self) -> (r: Response)
        ensures
            r == self.spec_resp(),
    {
        self.resp
    }
}

} // verus!
