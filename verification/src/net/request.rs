use vstd::prelude::*;

verus! {

use crate::ascii::{ascii_bytes, str_bytes};
use crate::byte_array::ByteArray;
use crate::decimal::{format_u128, parse_u128, spec_dec};
use crate::errors::{Error, ErrorKind};
use crate::net::headers::{
    find_header, headers_view, spec_content_length, spec_find_header, spec_header_index_from,
    spec_parse_header_line, spec_parse_headers, Header, MAX_HEADERS,
};
use crate::net::method::Method;
use crate::net::scan::{find_byte, find_crlf, spec_find_byte, spec_find_crlf};

/// Longest request path accepted, in bytes.
pub const PATH_SIZE: usize = 128;

/// Largest body a message can carry, in bytes.
pub const BODY_SIZE: usize = 2048;

/// What a well-formed request denotes.
pub struct SpecRequest {
    pub method: Method,
    pub path: Seq<u8>,
    pub headers: Seq<(Seq<u8>, Seq<u8>)>,
    pub body: Seq<u8>,
}

/// The request grammar: a request line `method SP path SP HTTP/1.1 CRLF`,
/// then header lines up to an empty line, then a body of exactly the declared
/// `Content-Length` bytes.
///   - no CRLF at all, or no empty line: the stream was cut short;
///   - unknown method token, empty or over-long path, wrong version, bad
///     header line or more than 16 headers: a parse error;
///   - declared length over 2048 or past the end of the buffer: a
///     content-length mismatch.
pub open spec fn spec_parse_request(s: Seq<u8>) -> Result<SpecRequest, ErrorKind> {
    match spec_find_crlf(s, 0) {
        None => Err(ErrorKind::IncompleteRequest),
        Some(le) => match spec_find_byte(s, 32, 0, le) {
            None => Err(ErrorKind::Parse),
            Some(sp1) => match spec_find_byte(s, 32, sp1 + 1, le) {
                None => Err(ErrorKind::Parse),
                Some(sp2) => {
                    let mtok = s.subrange(0, sp1);
                    let path = s.subrange(sp1 + 1, sp2);
                    let version = s.subrange(sp2 + 1, le);
                    if version != ascii_bytes("HTTP/1.1"@) {
                        Err(ErrorKind::Parse)
                    } else if path.len() == 0 || path.len() > PATH_SIZE {
                        Err(ErrorKind::Parse)
                    } else {
                        match Method::spec_from_token(mtok) {
                            None => Err(ErrorKind::Parse),
                            Some(m) => match spec_parse_headers(s, le + 2, Seq::empty()) {
                                Err(k) => Err(k),
                                Ok((hs, body_start)) => {
                                    let cl = spec_content_length(hs);
                                    if cl > BODY_SIZE || body_start + cl > s.len() {
                                        Err(ErrorKind::ContentLengthMismatch)
                                    } else {
                                        Ok(SpecRequest {
                                            method: m,
                                            path: path,
                                            headers: hs,
                                            body: s.subrange(body_start, body_start + cl),
                                        })
                                    }
                                },
                            },
                        }
                    }
                },
            },
        },
    }
}

/// The emitted headers from index `i` on: `name ": " value CRLF` each.
pub open spec fn spec_emit_headers(hs: Seq<(Seq<u8>, Seq<u8>)>, i: int) -> Seq<u8>
    decreases hs.len() - i,
{
    if i < 0 || i >= hs.len() {
        Seq::empty()
    } else {
        hs[i].0 + ascii_bytes(": "@) + hs[i].1 + ascii_bytes("\r\n"@) + spec_emit_headers(
            hs,
            i + 1,
        )
    }
}

/// A request at rest: method and path from the request line, up to 16
/// headers, and a body of at most 2 KiB.
#[derive(Debug)]
pub struct Request {
    pub path: Option<ByteArray<128>>,
    pub method: Option<Method>,
    pub headers: Vec<Header>,
    pub body: ByteArray<2048>,
}

impl Request {
    pub open spec fn wf(&self) -> bool {
        &&& (self.path matches Some(p) ==> p.wf())
        &&& self.headers@.len() <= MAX_HEADERS
        &&& (forall|i: int| 0 <= i < self.headers@.len() ==> (#[trigger] self.headers@[i]).wf())
        &&& self.body.wf()
    }

    /// The exact bytes this request is written as: the request line (method
    /// defaults to GET, path to `/`), each header, the mandatory
    /// `Content-Length`, a blank line, and the body.
    pub open spec fn spec_emit(&self) -> Seq<u8> {
        (match self.method {
            Some(m) => m.spec_token(),
            None => ascii_bytes("GET"@),
        }) + ascii_bytes(" "@) + (match self.path {
            Some(p) => p@,
            None => ascii_bytes("/"@),
        }) + ascii_bytes(" HTTP/1.1\r\n"@) + spec_emit_headers(headers_view(self.headers@), 0)
            + ascii_bytes("Content-Length: "@) + spec_dec(self.body@.len() as int) + ascii_bytes(
            "\r\n\r\n"@,
        ) + self.body@
    }

    pub fn new() -> (r: Request)
        ensures
            r.path is None,
            r.method is None,
            r.headers@.len() == 0,
            r.body@ == Seq::<u8>::empty(),
            r.wf(),
    {
        Request { path: None, method: None, headers: Vec::new(), body: ByteArray::new() }
    }

    pub fn builder() -> (r: RequestBuilder)
        ensures
            r.req.path is None,
            r.req.method is None,
            r.req.headers@.len() == 0,
            r.req.body@ == Seq::<u8>::empty(),
            r.req.wf(),
    {
        RequestBuilder { req: Request::new() }
    }

    /// Set `name` to `value`: replaces the value of the first header of that
    /// name, else appends; fails when the name or value is over-long or all
    /// 16 slots are taken.
    pub fn add_header(&mut self, name: &[u8], value: &[u8]) -> (r: Result<(), Error>)
        requires
            old(self).wf(),
        ensures
            final(self).wf(),
            final(self).path == old(self).path,
            final(self).method == old(self).method,
            final(self).body == old(self).body,
            name@.len() > 32 || value@.len() > 128 ==> (r matches Err(e)
                && e.spec_kind() == ErrorKind::Server && final(self).headers@ == old(self).headers@),
            name@.len() <= 32 && value@.len() <= 128 ==> match spec_header_index_from(
                headers_view(old(self).headers@),
                name@,
                0,
            ) {
                Some(ix) => r matches Ok(()) && headers_view(final(self).headers@)
                    == headers_view(old(self).headers@).update(ix, (name@, value@)),
                None => {
                    if old(self).headers@.len() < MAX_HEADERS {
                        r matches Ok(()) && headers_view(final(self).headers@)
                            == headers_view(old(self).headers@).push((name@, value@))
                    } else {
                        r matches Err(e) && e.spec_kind() == ErrorKind::Server
                            && final(self).headers@ == old(self).headers@
                    }
                },
            },
    {
        add_header_impl(&mut self.headers, name, value)
    }

    /// The first header named `name`, if any.
    pub fn get_header<'a>(&'a self, name: &[u8]) -> (r: Option<&'a Header>)
        ensures
            r matches Some(h) ==> spec_find_header(headers_view(self.headers@), name@)
                == Some(h.value@) && h.name@ == name@,
            r is None ==> spec_find_header(headers_view(self.headers@), name@) is None,
    {
        find_header(&self.headers, name)
    }

    pub fn path(&self) -> (r: Option<&[u8]>)
        ensures
            self.path matches Some(p) ==> (r matches Some(b) && b@ == p@),
            self.path is None ==> r is None,
    {
        match &self.path {
            Some(p) => Some(p.as_bytes()),
            None => None,
        }
    }

    pub fn method(&self) -> (r: Option<&Method>)
        ensures
            self.method matches Some(m) ==> (r matches Some(n) && *n == m),
            self.method is None ==> r is None,
    {
        self.method.as_ref()
    }

    /// Write the request out, byte-exact to [`Request::spec_emit`].
    pub fn to_bytes(&self) -> (r: Vec<u8>)
        requires
            self.wf(),
        ensures
            r@ == self.spec_emit(),
    {
        let mut out: Vec<u8> = Vec::new();
        proof {
            reveal_strlit("GET");
            reveal_strlit(" ");
            reveal_strlit("/");
            reveal_strlit(" HTTP/1.1\r\n");
            reveal_strlit("Content-Length: ");
            reveal_strlit("\r\n\r\n");
            assert(vstd::string::is_ascii("GET"));
            assert(vstd::string::is_ascii(" "));
            assert(vstd::string::is_ascii("/"));
            assert(vstd::string::is_ascii(" HTTP/1.1\r\n"));
            assert(vstd::string::is_ascii("Content-Length: "));
            assert(vstd::string::is_ascii("\r\n\r\n"));
        }
        match &self.method {
            Some(m) => out.extend_from_slice(m.token_bytes()),
            None => out.extend_from_slice(str_bytes("GET")),
        };
        out.extend_from_slice(str_bytes(" "));
        match &self.path {
            Some(p) => out.extend_from_slice(p.as_bytes()),
            None => out.extend_from_slice(str_bytes("/")),
        };
        out.extend_from_slice(str_bytes(" HTTP/1.1\r\n"));
        emit_headers(&mut out, &self.headers);
        out.extend_from_slice(str_bytes("Content-Length: "));
        let len_dec = format_u128(self.body.len() as u128);
        out.extend_from_slice(len_dec.as_slice());
        out.extend_from_slice(str_bytes("\r\n\r\n"));
        out.extend_from_slice(self.body.as_bytes());
        proof {
            assert(out@ =~= self.spec_emit());
        }
        out
    }

    /// Parse an accumulated buffer as a request, byte-exact to
    /// [`spec_parse_request`].
    pub fn from_bytes(buf: &[u8]) -> (r: Result<Request, Error>)
        ensures
            spec_parse_request(buf@) matches Ok(m) ==> (r matches Ok(req) && req.wf()
                && req.method == Some(m.method) && (req.path matches Some(p) && p@ == m.path)
                && headers_view(req.headers@) == m.headers && req.body@ == m.body),
            spec_parse_request(buf@) matches Err(k) ==> (r matches Err(e) && e.spec_kind() == k),
    {
        let buf_len = buf.len();
        let le = match find_crlf(buf, 0) {
            Some(le) => le,
            None => {
                return Err(Error::new(ErrorKind::IncompleteRequest, Some("no request line")));
            },
        };
        let sp1 = match find_byte(buf, 32, 0, le) {
            Some(s) => s,
            None => {
                return Err(Error::new(ErrorKind::Parse, Some("malformed request line")));
            },
        };
        let sp2 = match find_byte(buf, 32, sp1 + 1, le) {
            Some(s) => s,
            None => {
                return Err(Error::new(ErrorKind::Parse, Some("malformed request line")));
            },
        };
        proof {
            reveal_strlit("HTTP/1.1");
            assert(vstd::string::is_ascii("HTTP/1.1"));
        }
        if !crate::ascii::compare_bytes(&buf[sp2 + 1..le], str_bytes("HTTP/1.1")) {
            return Err(Error::new(ErrorKind::Parse, Some("unsupported protocol version")));
        }
        let path_len = sp2 - (sp1 + 1);
        if path_len == 0 || path_len > PATH_SIZE {
            return Err(Error::new(ErrorKind::Parse, Some("bad path length")));
        }
        let method = match Method::from_token(&buf[0..sp1]) {
            Some(m) => m,
            None => {
                return Err(Error::new(ErrorKind::Parse, Some("unknown method")));
            },
        };
        let path = match ByteArray::<128>::try_make(&buf[sp1 + 1..sp2]) {
            Some(p) => p,
            None => {
                return Err(Error::new(ErrorKind::Parse, Some("bad path length")));
            },
        };
        let (headers, body_start) = match parse_headers(buf, le + 2) {
            Ok(p) => p,
            Err(e) => {
                return Err(e);
            },
        };
        let body = match read_body(buf, &headers, body_start) {
            Ok(b) => b,
            Err(e) => {
                return Err(e);
            },
        };
        Ok(Request { path: Some(path), method: Some(method), headers, body })
    }
}

/// Replace-or-append a header in a list, as [`Request::add_header`] states.
pub(crate) fn add_header_impl(headers: &mut Vec<Header>, name: &[u8], value: &[u8]) -> (r: Result<
    (),
    Error,
>)
    requires
        old(headers)@.len() <= MAX_HEADERS,
        forall|i: int| 0 <= i < old(headers)@.len() ==> (#[trigger] old(headers)@[i]).wf(),
    ensures
        final(headers)@.len() <= MAX_HEADERS,
        forall|i: int| 0 <= i < final(headers)@.len() ==> (#[trigger] final(headers)@[i]).wf(),
        name@.len() > 32 || value@.len() > 128 ==> (r matches Err(e)
            && e.spec_kind() == ErrorKind::Server && final(headers)@ == old(headers)@),
        name@.len() <= 32 && value@.len() <= 128 ==> match spec_header_index_from(
            headers_view(old(headers)@),
            name@,
            0,
        ) {
            Some(ix) => r matches Ok(()) && headers_view(final(headers)@)
                == headers_view(old(headers)@).update(ix, (name@, value@)),
            None => {
                if old(headers)@.len() < MAX_HEADERS {
                    r matches Ok(()) && headers_view(final(headers)@)
                        == headers_view(old(headers)@).push((name@, value@))
                } else {
                    r matches Err(e) && e.spec_kind() == ErrorKind::Server
                        && final(headers)@ == old(headers)@
                }
            },
        },
{
    if name.len() > 32 || value.len() > 128 {
        return Err(Error::new(ErrorKind::Server, Some("header name or value too long")));
    }
    let new_name = match ByteArray::<32>::try_make(name) {
        Some(n) => n,
        None => {
            return Err(Error::new(ErrorKind::Server, Some("header name too long")));
        },
    };
    let new_value = match ByteArray::<128>::try_make(value) {
        Some(v) => v,
        None => {
            return Err(Error::new(ErrorKind::Server, Some("header value too long")));
        },
    };
    let ghost hv0 = headers_view(old(headers)@);
    let mut i: usize = 0;
    #[verifier::loop_isolation(false)]
    while i < headers.len()
        invariant
            0 <= i <= headers@.len(),
            headers@ == old(headers)@,
            hv0 == headers_view(headers@),
            hv0.len() == headers@.len(),
            forall|j: int| 0 <= j < headers@.len() ==> hv0[j] == (headers@[j].name@, headers@[j].value@),
            spec_header_index_from(hv0, name@, 0) == spec_header_index_from(hv0, name@, i as int),
        decreases headers@.len() - i,
    {
        if crate::ascii::compare_bytes(headers[i].name.as_bytes(), name) {
            let h = Header { name: new_name, value: new_value };
            let slot = vstd::std_specs::vec::vec_index_mut(headers, i);
            *slot = h;
            proof {
                assert(headers_view(headers@) =~= hv0.update(i as int, (name@, value@)));
            }
            return Ok(());
        }
        i += 1;
    }
    if headers.len() >= MAX_HEADERS {
        proof {
            assert(i as int >= hv0.len());
            assert(spec_header_index_from(hv0, name@, i as int) is None);
            assert(spec_header_index_from(hv0, name@, 0) is None);
        }
        return Err(Error::new(ErrorKind::Server, Some("too many headers")));
    }
    headers.push(Header { name: new_name, value: new_value });
    proof {
        assert(headers_view(headers@) =~= hv0.push((name@, value@)));
    }
    Ok(())
}

/// Emit each header as `name ": " value CRLF`, appending to `out`.
pub(crate) fn emit_headers(out: &mut Vec<u8>, headers: &Vec<Header>)
    ensures
        final(out)@ == old(out)@ + spec_emit_headers(headers_view(headers@), 0),
{
    proof {
        reveal_strlit(": ");
        reveal_strlit("\r\n");
        assert(vstd::string::is_ascii(": "));
        assert(vstd::string::is_ascii("\r\n"));
    }
    let ghost hv = headers_view(headers@);
    let ghost base = old(out)@;
    let mut i: usize = 0;
    #[verifier::loop_isolation(false)]
    while i < headers.len()
        invariant
            0 <= i <= headers@.len(),
            hv == headers_view(headers@),
            hv.len() == headers@.len(),
            forall|j: int| 0 <= j < headers@.len() ==> hv[j] == (headers@[j].name@, headers@[j].value@),
            base + spec_emit_headers(hv, 0) == out@ + spec_emit_headers(hv, i as int),
        decreases headers@.len() - i,
    {
        let ghost before = out@;
        out.extend_from_slice(headers[i].name.as_bytes());
        out.extend_from_slice(str_bytes(": "));
        out.extend_from_slice(headers[i].value.as_bytes());
        out.extend_from_slice(str_bytes("\r\n"));
        proof {
            assert(out@ =~= before + (hv[i as int].0 + ascii_bytes(": "@) + hv[i as int].1
                + ascii_bytes("\r\n"@)));
            assert(base + spec_emit_headers(hv, 0) =~= out@ + spec_emit_headers(hv, i + 1));
        }
        i += 1;
    }
    proof {
        assert(out@ =~= base + spec_emit_headers(hv, 0));
    }
}

/// Parse the header block starting at `start`, mirroring
/// [`spec_parse_headers`] from an empty accumulator.
pub(crate) fn parse_headers(buf: &[u8], start: usize) -> (r: Result<(Vec<Header>, usize), Error>)
    requires
        start <= buf@.len(),
    ensures
        r matches Ok((hs, body_start)) ==> spec_parse_headers(buf@, start as int, Seq::empty())
            == Ok::<_, ErrorKind>((headers_view(hs@), body_start as int)) && hs@.len()
            <= MAX_HEADERS && (forall|i: int|
            0 <= i < hs@.len() ==> (#[trigger] hs@[i]).wf()) && body_start <= buf@.len(),
        r matches Err(e) ==> spec_parse_headers(buf@, start as int, Seq::empty())
            == Err::<(Seq<(Seq<u8>, Seq<u8>)>, int), _>(e.spec_kind()),
{
    let buf_len = buf.len();
    let mut headers: Vec<Header> = Vec::new();
    proof {
        assert(headers_view(headers@) =~= Seq::<(Seq<u8>, Seq<u8>)>::empty());
    }
    let mut pos = start;
    loop
        invariant
            pos <= buf@.len(),
            buf_len == buf@.len(),
            headers@.len() <= MAX_HEADERS,
            forall|i: int| 0 <= i < headers@.len() ==> (#[trigger] headers@[i]).wf(),
            spec_parse_headers(buf@, start as int, Seq::empty()) == spec_parse_headers(
                buf@,
                pos as int,
                headers_view(headers@),
            ),
        decreases buf@.len() - pos,
    {
        let j = match find_crlf(buf, pos) {
            Some(j) => j,
            None => {
                return Err(Error::new(ErrorKind::IncompleteRequest, Some("headers cut short")));
            },
        };
        if j == pos {
            return Ok((headers, pos + 2));
        }
        if headers.len() >= MAX_HEADERS {
            return Err(Error::new(ErrorKind::Parse, Some("too many headers")));
        }
        let h = match Header::parse_line(buf, pos, j) {
            Some(h) => h,
            None => {
                return Err(Error::new(ErrorKind::Parse, Some("malformed header line")));
            },
        };
        let ghost prev = headers@;
        headers.push(h);
        proof {
            assert(headers_view(headers@) =~= headers_view(prev).push((h.name@, h.value@)));
        }
        pos = j + 2;
    }
}

/// Read the declared body out of the buffer: exactly `Content-Length` bytes
/// from `body_start`, failing as [`spec_parse_request`] does.
pub(crate) fn read_body(buf: &[u8], headers: &Vec<Header>, body_start: usize) -> (r: Result<
    ByteArray<2048>,
    Error,
>)
    requires
        body_start <= buf@.len(),
    ensures
        ({
            let cl = spec_content_length(headers_view(headers@));
            &&& (r matches Ok(b) ==> cl <= BODY_SIZE && body_start + cl <= buf@.len() && b@
                == buf@.subrange(body_start as int, body_start + cl) && b.wf())
            &&& (r matches Err(e) ==> (cl > BODY_SIZE || body_start + cl > buf@.len())
                && e.spec_kind() == ErrorKind::ContentLengthMismatch)
        }),
{
    proof {
        reveal_strlit("Content-Length");
        assert(vstd::string::is_ascii("Content-Length"));
    }
    let cl: usize = match find_header(headers, str_bytes("Content-Length")) {
        None => 0,
        Some(h) => match parse_u128(h.value.as_bytes()) {
            Some(v) => {
                if v <= usize::MAX as u128 {
                    v as usize
                } else {
                    0
                }
            },
            None => 0,
        },
    };
    if cl > BODY_SIZE || cl > buf.len() - body_start {
        return Err(Error::new(ErrorKind::ContentLengthMismatch, Some("body length mismatch")));
    }
    match ByteArray::<2048>::try_make(&buf[body_start..body_start + cl]) {
        Some(b) => Ok(b),
        None => Err(Error::new(ErrorKind::ContentLengthMismatch, Some("body length mismatch"))),
    }
}

/// Build a request a piece at a time.
pub struct RequestBuilder {
    pub req: Request,
}

impl RequestBuilder {
    pub open spec fn spec_req(&self) -> Request {
        self.req
    }

    pub fn path(self, path: &[u8]) -> (r: Self)
        requires
            path@.len() <= PATH_SIZE,
            self.spec_req().wf(),
        ensures
            r.spec_req().wf(),
            r.spec_req().path matches Some(p) && p@ == path@,
            r.spec_req().method == self.spec_req().method,
            r.spec_req().headers == self.spec_req().headers,
            r.spec_req().body == self.spec_req().body,
    {
        let mut req = self.req;
        match ByteArray::<128>::try_make(path) {
            Some(p) => {
                req.path = Some(p);
            },
            None => {
            },
        }
        RequestBuilder { req }
    }

    pub fn method(self, method: Method) -> (r: Self)
        requires
            self.spec_req().wf(),
        ensures
            r.spec_req().wf(),
            r.spec_req().method == Some(method),
            r.spec_req().path == self.spec_req().path,
            r.spec_req().headers == self.spec_req().headers,
            r.spec_req().body == self.spec_req().body,
    {
        let mut req = self.req;
        req.method = Some(method);
        RequestBuilder { req }
    }

    pub fn add_header(self, name: &[u8], value: &[u8]) -> (r: Result<Self, Error>)
        requires
            self.spec_req().wf(),
        ensures
            r matches Ok(b) ==> b.spec_req().wf() && b.spec_req().path == self.spec_req().path
                && b.spec_req().method == self.spec_req().method && b.spec_req().body
                == self.spec_req().body,
    {
        let mut req = self.req;
        match req.add_header(name, value) {
            Ok(()) => Ok(RequestBuilder { req }),
            Err(e) => Err(e),
        }
    }

    /// Append to the body; fails if the result would pass 2 KiB.
    pub fn append_body(self, body: &[u8]) -> (r: Result<Self, Error>)
        requires
            self.spec_req().wf(),
        ensures
            r matches Ok(b) ==> b.spec_req().wf() && b.spec_req().body@ == self.spec_req().body@
                + body@ && b.spec_req().path == self.spec_req().path && b.spec_req().method
                == self.spec_req().method && b.spec_req().headers == self.spec_req().headers,
            self.spec_req().body@.len() + body@.len() <= BODY_SIZE ==> r is Ok,
    {
        let mut req = self.req;
        match req.body.append_slice(body) {
            Ok(()) => Ok(RequestBuilder { req }),
            Err(e) => Err(e),
        }
    }

    /// Replace the body.
    pub fn body(self, body: &[u8]) -> (r: Self)
        requires
            self.spec_req().wf(),
            body@.len() <= BODY_SIZE,
        ensures
            r.spec_req().wf(),
            r.spec_req().body@ == body@,
            r.spec_req().path == self.spec_req().path,
            r.spec_req().method == self.spec_req().method,
            r.spec_req().headers == self.spec_req().headers,
    {
        let mut req = self.req;
        let _ = req.body.copy_from_slice(body);
        RequestBuilder { req }
    }

    pub fn build(self) -> (r: Request)
        ensures
            r == self.spec_req(),
    {
        self.req
    }
}

} // verus!
