use remote_unlock::byte_array::ByteArray;
use remote_unlock::errors::{Error, ErrorKind};
use remote_unlock::net::headers::Header;
use remote_unlock::net::method::Method;
use remote_unlock::net::request::Request;
use remote_unlock::net::response::Response;
use remote_unlock::net::status::Status;

#[test]
fn request_parse_simple() {
    let raw = b"POST /unlock HTTP/1.1\r\nContent-Length: 3\r\n\r\nabc";
    let req = Request::from_bytes(raw).unwrap();
    assert_eq!(req.path().unwrap(), b"/unlock");
    assert!(matches!(req.method().unwrap(), Method::Post));
    assert_eq!(req.body.as_bytes(), b"abc");
}

#[test]
fn request_parse_no_body() {
    let raw = b"GET / HTTP/1.1\r\n\r\n";
    let req = Request::from_bytes(raw).unwrap();
    assert_eq!(req.path().unwrap(), b"/");
    assert!(matches!(req.method().unwrap(), Method::Get));
    assert_eq!(req.body.len(), 0);
}

#[test]
fn request_parse_headers_and_ows() {
    let raw = b"POST /x HTTP/1.1\r\nX-RemoteUnlock-Signature:   c2ln\r\n\r\n";
    let req = Request::from_bytes(raw).unwrap();
    let h = req.get_header(b"X-RemoteUnlock-Signature").unwrap();
    assert_eq!(h.value.as_bytes(), b"c2ln");
}

#[test]
fn request_parse_incomplete() {
    let raw = b"POST /unlock HTTP/1.1\r\nContent-Length: 3\r\n";
    let err = Request::from_bytes(raw).unwrap_err();
    assert!(matches!(err.kind(), ErrorKind::IncompleteRequest));
}

#[test]
fn request_parse_content_length_mismatch() {
    let raw = b"POST /unlock HTTP/1.1\r\nContent-Length: 10\r\n\r\nabc";
    let err = Request::from_bytes(raw).unwrap_err();
    assert!(matches!(err.kind(), ErrorKind::ContentLengthMismatch));
}

#[test]
fn request_parse_bad_method() {
    let raw = b"BREW /pot HTTP/1.1\r\n\r\n";
    let err = Request::from_bytes(raw).unwrap_err();
    assert!(matches!(err.kind(), ErrorKind::Parse));
}

#[test]
fn request_parse_bad_version() {
    let raw = b"POST /x HTTP/1.0\r\n\r\n";
    let err = Request::from_bytes(raw).unwrap_err();
    assert!(matches!(err.kind(), ErrorKind::Parse));
}

#[test]
fn request_emit_parse_round_trip() {
    let req = Request::builder()
        .method(Method::Post)
        .path(b"/enroll")
        .add_header(b"Content-Type", b"application/json")
        .unwrap()
        .append_body(b"{}")
        .unwrap()
        .build();
    let bytes = req.to_bytes();
    let back = Request::from_bytes(&bytes).unwrap();
    assert_eq!(back.path().unwrap(), b"/enroll");
    assert!(matches!(back.method().unwrap(), Method::Post));
    assert_eq!(back.body.as_bytes(), b"{}");
    assert_eq!(
        back.get_header(b"Content-Type").unwrap().value.as_bytes(),
        b"application/json"
    );
}

#[test]
fn request_emit_defaults() {
    let req = Request::new();
    let bytes = req.to_bytes();
    assert_eq!(&bytes, b"GET / HTTP/1.1\r\nContent-Length: 0\r\n\r\n");
}

#[test]
fn request_add_header_replaces() {
    let mut req = Request::new();
    req.add_header(b"A", b"1").unwrap();
    req.add_header(b"B", b"2").unwrap();
    req.add_header(b"A", b"3").unwrap();
    assert_eq!(req.get_header(b"A").unwrap().value.as_bytes(), b"3");
    assert_eq!(req.get_header(b"B").unwrap().value.as_bytes(), b"2");
    assert!(req.get_header(b"C").is_none());
}

#[test]
fn request_header_limit() {
    let mut req = Request::new();
    for i in 0..16u8 {
        req.add_header(&[b'h', b'0' + i % 10, b'x' + i / 10], b"v").unwrap();
    }
    let err = req.add_header(b"one-too-many", b"v").unwrap_err();
    assert!(matches!(err.kind(), ErrorKind::Server));
}

#[test]
fn response_emit_exact_bytes() {
    let resp = Response::new(Status::NotFound);
    let bytes = resp.to_bytes();
    assert_eq!(&bytes, b"HTTP/1.1 404 Not Found\r\nContent-Length: 0\r\n\r\n");
}

#[test]
fn response_emit_parse_round_trip() {
    let resp = Response::builder()
        .status(Status::Okay)
        .add_header(b"Content-Type", b"application/json")
        .unwrap()
        .append_body(b"{\"id\":\"x\"}")
        .unwrap()
        .build();
    let bytes = resp.to_bytes();
    let back = Response::from_bytes(&bytes).unwrap();
    assert_eq!(back.status(), Status::Okay);
    assert_eq!(back.body.as_bytes(), b"{\"id\":\"x\"}");
}

#[test]
fn response_parse_unknown_status() {
    let raw = b"HTTP/1.1 302 Found\r\n\r\n";
    let err = Response::from_bytes(raw).unwrap_err();
    assert!(matches!(err.kind(), ErrorKind::Parse));
}

#[test]
fn status_codes_and_reasons() {
    assert_eq!(Status::Okay.to_u16(), 200);
    assert_eq!(Status::BadRequest.to_u16(), 400);
    assert_eq!(Status::Forbidden.to_u16(), 403);
    assert_eq!(Status::NotFound.to_u16(), 404);
    assert_eq!(Status::InternalServerError.to_u16(), 500);
    assert_eq!(Status::Okay.to_string(), "OK");
    assert_eq!(Status::InternalServerError.to_string(), "Internal Server Error");
    assert_eq!(Status::from_u16(403).unwrap(), Status::Forbidden);
    assert!(Status::from_u16(418).is_err());
}

#[test]
fn error_kinds_map_to_statuses() {
    let cases: [(ErrorKind, u16); 12] = [
        (ErrorKind::Parse, 400),
        (ErrorKind::OversizePacket, 400),
        (ErrorKind::IncompleteRequest, 400),
        (ErrorKind::ContentLengthMismatch, 400),
        (ErrorKind::SignatureMalformed, 400),
        (ErrorKind::NonceRegression, 403),
        (ErrorKind::SignatureInvalid, 403),
        (ErrorKind::CodeBufferFull, 403),
        (ErrorKind::PubkeyNotFound, 404),
        (ErrorKind::KeyMalformed, 500),
        (ErrorKind::Server, 500),
        (ErrorKind::Socket, 500),
    ];
    for (kind, status) in cases {
        assert_eq!(kind.to_status().to_u16(), status);
        assert_eq!(Error::new(kind, Some("x")).to_status().to_u16(), status);
        assert!(matches!(Error::new(kind, None).kind(), k if k == kind));
    }
}

#[test]
fn header_from_bytes_line() {
    let h = Header::from_bytes(b"Content-Type: text/plain\r\n").unwrap();
    assert_eq!(h.name.as_bytes(), b"Content-Type");
    assert_eq!(h.value.as_bytes(), b"text/plain");
    assert!(Header::from_bytes(b"no colon here").is_err());
}

#[test]
fn byte_array_bounds() {
    let mut b: ByteArray<4> = ByteArray::new();
    b.append_slice(b"ab").unwrap();
    b.append_slice(b"cd").unwrap();
    assert!(b.append_slice(b"e").is_err());
    assert_eq!(b.as_bytes(), b"abcd");
    assert!(ByteArray::<4>::try_from(b"abcde").is_err());
    assert_eq!(ByteArray::<4>::try_from(b"abc").unwrap().len(), 3);
}
