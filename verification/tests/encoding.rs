use remote_unlock::config::Config;
use remote_unlock::decimal::{format_u128, parse_u128};
use remote_unlock::hex_id::{id_to_hex, parse_id};
use remote_unlock::json::{
    code_expires_body_bytes, enroll_body_bytes, escape_bytes, id_body_bytes, parse_enroll_body,
    parse_unlock_body, unlock_body_bytes,
};

#[test]
fn decimal_format_and_parse() {
    assert_eq!(format_u128(0), b"0");
    assert_eq!(format_u128(42), b"42");
    assert_eq!(format_u128(u128::MAX), format!("{}", u128::MAX).as_bytes());
    assert_eq!(parse_u128(b"0"), Some(0));
    assert_eq!(parse_u128(b"340282366920938463463374607431768211455"), Some(u128::MAX));
    assert_eq!(parse_u128(b"340282366920938463463374607431768211456"), None);
    assert_eq!(parse_u128(b""), None);
    assert_eq!(parse_u128(b"12a"), None);
    assert_eq!(parse_u128(&format_u128(123_456)), Some(123_456));
}

#[test]
fn id_hex_round_trip() {
    for id in [0u128, 1, 0xdead_beef, u128::MAX, 0x0123_4567_89ab_cdef_0123_4567_89ab_cdef] {
        let hex = id_to_hex(id);
        assert_eq!(hex.len(), 32);
        assert_eq!(parse_id(&hex), Some(id));
    }
    assert_eq!(
        id_to_hex(0x0123_4567_89ab_cdef_0123_4567_89ab_cdef),
        b"0123456789abcdef0123456789abcdef"
    );
    // upper-case digits are read too
    assert_eq!(parse_id(b"0123456789ABCDEF0123456789ABCDEF"), Some(0x0123_4567_89ab_cdef_0123_4567_89ab_cdef));
    assert_eq!(parse_id(b"0123"), None);
    assert_eq!(parse_id(b"0123456789abcdef0123456789abcdeg"), None);
}

#[test]
fn unlock_body_emit_and_parse() {
    let body = unlock_body_bytes(b"abc123", 42);
    assert_eq!(&body, b"{\"id\":\"abc123\",\"nonce\":42}");
    let (id, nonce) = parse_unlock_body(&body).unwrap();
    assert_eq!(id, b"abc123");
    assert_eq!(nonce, 42);
    // the subset is strict: whitespace or reordered fields are malformed
    assert!(parse_unlock_body(b"{ \"id\":\"a\",\"nonce\":1}").is_none());
    assert!(parse_unlock_body(b"{\"nonce\":1,\"id\":\"a\"}").is_none());
    assert!(parse_unlock_body(b"not json").is_none());
    assert!(parse_unlock_body(b"{\"id\":\"a\",\"nonce\":1}x").is_none());
}

#[test]
fn enroll_body_emit_and_parse() {
    let pem = b"-----BEGIN PUBLIC KEY-----\nAAAA\n-----END PUBLIC KEY-----\n";
    let body = enroll_body_bytes(123_456, pem);
    // newlines in the key travel as \n escapes
    assert!(body.windows(2).filter(|w| *w == b"\\n").count() >= 3);
    let (code, parsed_pem) = parse_enroll_body(&body).unwrap();
    assert_eq!(code, 123_456);
    assert_eq!(parsed_pem, pem);
    assert!(parse_enroll_body(b"{\"code\":true}").is_none());
}

#[test]
fn escape_and_unescape_cover_the_subset() {
    let raw = b"a\"b\\c\nd\re\tf/g";
    let escaped = escape_bytes(raw);
    assert_eq!(&escaped, b"a\\\"b\\\\c\\nd\\re\\tf/g");
    let mut quoted = escaped.clone();
    quoted.push(b'"');
    let mut body = b"{\"id\":\"".to_vec();
    body.extend_from_slice(&quoted);
    body.extend_from_slice(b",\"nonce\":7}");
    let (id, nonce) = parse_unlock_body(&body).unwrap();
    assert_eq!(id, raw);
    assert_eq!(nonce, 7);
}

#[test]
fn response_body_shapes() {
    assert_eq!(
        &code_expires_body_bytes(654_321, 1_700_000_000),
        b"{\"code\":654321,\"expires\":1700000000}"
    );
    assert_eq!(&id_body_bytes(0xff), b"{\"id\":\"000000000000000000000000000000ff\"}");
}

#[test]
fn config_defaults_and_paths() {
    let mut config = Config::new();
    assert_eq!(config.socket_path(), b"/tmp/remote_unlock.sock");
    assert_eq!(config.server_ip(), b"0.0.0.0");
    assert_eq!(config.server_port(), 8142);
    assert_eq!(config.keys_dir(), b"./var/lib/remote_unlock/keys");
    assert_eq!(config.nonce_dir(), b"./var/lib/remote_unlock/nonces");
    config.set_storage_dir(b"/var/tmp/ru");
    assert_eq!(config.keys_dir(), b"/var/tmp/ru/keys");
    config.set_server_port(9999);
    assert_eq!(config.server_port(), 9999);
}
