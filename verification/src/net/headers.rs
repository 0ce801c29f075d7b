use vstd::prelude::*;

verus! {

use crate::ascii::{ascii_bytes, compare_bytes};
use crate::byte_array::ByteArray;
use crate::decimal::{all_digits, dec_val};
use crate::errors::{Error, ErrorKind};
use crate::net::scan::{
    find_byte, lemma_find_crlf_bounds, skip_ows, spec_find_byte, spec_find_crlf, spec_skip_ows,
};

/// Longest header name accepted, in bytes.
pub const HEADER_NAME_SIZE: usize = 32;

/// Longest header value accepted, in bytes.
pub const HEADER_VALUE_SIZE: usize = 128;

/// One header: a name of at most 32 bytes and a value of at most 128 bytes.
#[derive(Clone, Debug)]
pub struct Header {
    pub name: ByteArray<32>,
    pub value: ByteArray<128>,
}

/// A header line `name ":" OWS value` over `s[start..end)`: the name is what
/// stands before the first colon, the value what stands after it with leading
/// spaces and tabs dropped.  `None` when there is no colon, the name is empty
/// or over 32 bytes, or the value is over 128 bytes.
pub open spec fn spec_parse_header_line(s: Seq<u8>, start: int, end: int) -> Option<
    (Seq<u8>, Seq<u8>),
> {
    match spec_find_byte(s, 58, start, end) {
        None => None,
        Some(c) => {
            let name = s.subrange(start, c);
            let vstart = spec_skip_ows(s, c + 1, end);
            let value = s.subrange(vstart, end);
            if 1 <= name.len() && name.len() <= 32 && value.len() <= 128 {
                Some((name, value))
            } else {
                None
            }
        },
    }
}

impl Header {
    pub open spec fn wf(&self) -> bool {
        self.name.wf() && self.value.wf()
    }

    pub fn new() -> (r: Header)
        ensures
            r.name@ == Seq::<u8>::empty(),
            r.value@ == Seq::<u8>::empty(),
            r.wf(),
    {
        Header { name: ByteArray::new(), value: ByteArray::new() }
    }

    /// Parse the header line in `bytes[start..end)`.
    pub fn parse_line(bytes: &[u8], start: usize, end: usize) -> (r: Option<Header>)
        requires
            start <= end <= bytes@.len(),
        ensures
            r matches Some(h) ==> spec_parse_header_line(bytes@, start as int, end as int)
                == Some((h.name@, h.value@)) && h.wf(),
            r is None ==> spec_parse_header_line(bytes@, start as int, end as int) is None,
    {
        let c = match find_byte(bytes, 58, start, end) {
            Some(c) => c,
            None => {
                return None;
            },
        };
        if c == start || c - start > HEADER_NAME_SIZE {
            return None;
        }
        let vstart = skip_ows(bytes, c + 1, end);
        if end - vstart > HEADER_VALUE_SIZE {
            return None;
        }
        let name = match ByteArray::<32>::try_make(&bytes[start..c]) {
            Some(n) => n,
            None => {
                return None;
            },
        };
        let value = match ByteArray::<128>::try_make(&bytes[vstart..end]) {
            Some(v) => v,
            None => {
                return None;
            },
        };
        Some(Header { name, value })
    }

    /// Parse a whole line, with any trailing CRLF stripped first.
    pub fn from_bytes(bytes: &[u8]) -> (r: Result<Header, Error>)
        ensures
            r matches Ok(h) ==> spec_parse_header_line(
                bytes@,
                0,
                spec_line_end(bytes@),
            ) == Some((h.name@, h.value@)) && h.wf(),
            r matches Err(e) ==> spec_parse_header_line(bytes@, 0, spec_line_end(bytes@)) is None
                && e.spec_kind() == ErrorKind::Parse,
    {
        let mut end = bytes.len();
        if end >= 2 && bytes[end - 2] == 13 && bytes[end - 1] == 10 {
            end = end - 2;
        }
        proof {
            assert(end == spec_line_end(bytes@));
        }
        match Header::parse_line(bytes, 0, end) {
            Some(h) => Ok(h),
            None => Err(Error::new(ErrorKind::Parse, Some("malformed header line"))),
        }
    }
}

/// Where the line content ends: before a trailing CRLF if there is one.
pub open spec fn spec_line_end(s: Seq<u8>) -> int {
    if s.len() >= 2 && s[s.len() - 2] == 13 && s[s.len() - 1] == 10 {
        s.len() - 2
    } else {
        s.len() as int
    }
}

/// Most headers a message can carry.
pub const MAX_HEADERS: usize = 16;

/// The (name, value) pairs a sequence of headers denotes.
pub open spec fn headers_view(hs: Seq<Header>) -> Seq<(Seq<u8>, Seq<u8>)> {
    hs.map_values(|h: Header| (h.name@, h.value@))
}

/// Parse CRLF-terminated header lines starting at `i`, until the empty line;
/// gives the headers read so far plus `acc`, and the index just past the
/// empty line (where the body starts).  More than 16 headers or a bad line is
/// a parse error; a missing empty line means the message was cut short.
pub open spec fn spec_parse_headers(s: Seq<u8>, i: int, acc: Seq<(Seq<u8>, Seq<u8>)>) -> Result<
    (Seq<(Seq<u8>, Seq<u8>)>, int),
    ErrorKind,
>
    decreases s.len() - i,
    when i >= 0
    via spec_parse_headers_decreases
{
    match spec_find_crlf(s, i) {
        None => Err(ErrorKind::IncompleteRequest),
        Some(j) => {
            if j == i {
                Ok((acc, i + 2))
            } else if acc.len() >= 16 {
                Err(ErrorKind::Parse)
            } else {
                match spec_parse_header_line(s, i, j) {
                    None => Err(ErrorKind::Parse),
                    Some(h) => spec_parse_headers(s, j + 2, acc.push(h)),
                }
            }
        },
    }
}

#[via_fn]
proof fn spec_parse_headers_decreases(s: Seq<u8>, i: int, acc: Seq<(Seq<u8>, Seq<u8>)>) {
    lemma_find_crlf_bounds(s, i);
}

/// The value of the first header named `name` at or after `i`, if any.
pub open spec fn spec_find_header_from(
    hs: Seq<(Seq<u8>, Seq<u8>)>,
    name: Seq<u8>,
    i: int,
) -> Option<Seq<u8>>
    decreases hs.len() - i,
{
    if i < 0 || i >= hs.len() {
        None
    } else if hs[i].0 == name {
        Some(hs[i].1)
    } else {
        spec_find_header_from(hs, name, i + 1)
    }
}

/// The value of the first header named `name`, if any.
pub open spec fn spec_find_header(hs: Seq<(Seq<u8>, Seq<u8>)>, name: Seq<u8>) -> Option<Seq<u8>> {
    spec_find_header_from(hs, name, 0)
}

/// The index of the first header named `name` at or after `i`, if any.
pub open spec fn spec_header_index_from(
    hs: Seq<(Seq<u8>, Seq<u8>)>,
    name: Seq<u8>,
    i: int,
) -> Option<int>
    decreases hs.len() - i,
{
    if i < 0 || i >= hs.len() {
        None
    } else if hs[i].0 == name {
        Some(i)
    } else {
        spec_header_index_from(hs, name, i + 1)
    }
}

/// The declared body length: the value of the first `Content-Length` header
/// read as decimal, or 0 when the header is absent or its value is not a
/// number that fits the machine.
pub open spec fn spec_content_length(hs: Seq<(Seq<u8>, Seq<u8>)>) -> int {
    match spec_find_header(hs, ascii_bytes("Content-Length"@)) {
        None => 0,
        Some(v) => {
            if v.len() > 0 && all_digits(v) && dec_val(v) <= usize::MAX {
                dec_val(v)
            } else {
                0
            }
        },
    }
}

/// Find the first header named `name` in `hs`.
pub fn find_header<'a>(hs: &'a Vec<Header>, name: &[u8]) -> (r: Option<&'a Header>)
    ensures
        r matches Some(h) ==> spec_find_header(headers_view(hs@), name@) == Some(h.value@)
            && h.name@ == name@,
        r is None ==> spec_find_header(headers_view(hs@), name@) is None,
{
    let ghost hv = headers_view(hs@);
    let mut i: usize = 0;
    while i < hs.len()
        invariant
            0 <= i <= hs@.len(),
            hv == headers_view(hs@),
            hv.len() == hs@.len(),
            forall|j: int| 0 <= j < hs@.len() ==> hv[j] == (hs@[j].name@, hs@[j].value@),
            spec_find_header_from(hv, name@, 0) == spec_find_header_from(hv, name@, i as int),
        decreases hs@.len() - i,
    {
        if compare_bytes(hs[i].name.as_bytes(), name) {
            return Some(&hs[i]);
        }
        i += 1;
    }
    None
}

} // verus!
