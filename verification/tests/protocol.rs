use base64::Engine;
use p256::ecdsa::signature::Signer;
use p256::ecdsa::{Signature, SigningKey};
use rand::rngs::OsRng;
use spki::EncodePublicKey;

use remote_unlock::byte_array::ByteArray;
use remote_unlock::enroll_request::EnrollmentRequest;
use remote_unlock::hex_id::id_to_hex;
use remote_unlock::net::method::Method;
use remote_unlock::net::request::Request;
use remote_unlock::net::response::Response;
use remote_unlock::net::status::Status;
use remote_unlock::pki::PublicKey;
use remote_unlock::routes::begin_enroll::handle_begin_enroll;
use remote_unlock::routes::enroll::{EnrollRoute, KeyRecord};
use remote_unlock::routes::not_found::NotFound;
use remote_unlock::routes::router::{RouteChoice, Router};
use remote_unlock::routes::unlock::UnlockRoute;
use remote_unlock::state::State;
use remote_unlock::unlock_request::UnlockRequestBody;

const NOW: i64 = 1_700_000_000;

fn fresh_keypair_pem() -> (SigningKey, String) {
    let signing_key = SigningKey::random(&mut OsRng);
    let pem = signing_key
        .verifying_key()
        .to_public_key_pem(pkcs8::LineEnding::LF)
        .unwrap();
    (signing_key, pem)
}

fn enroll_request(code: u32, pem: &str) -> Request {
    let body = EnrollmentRequest::new(
        code,
        ByteArray::<1024>::try_from(pem.as_bytes()).unwrap(),
    )
    .to_bytes();
    Request::builder()
        .method(Method::Post)
        .path(b"/enroll")
        .append_body(&body)
        .unwrap()
        .build()
}

fn enroll(state: &mut State, code: u32, pem: &str, now: i64) -> (Response, Option<KeyRecord>) {
    let req = enroll_request(code, pem);
    EnrollRoute::new().run(state, &req, now)
}

fn unlock_request(id_hex: &[u8], nonce: u128, signing_key: &SigningKey) -> Request {
    let body = UnlockRequestBody { id: id_hex.to_vec(), nonce }.to_bytes();
    let sig: Signature = signing_key.sign(&body);
    let sig_b64 = base64::engine::general_purpose::STANDARD.encode(sig.to_der().as_bytes());
    Request::builder()
        .method(Method::Post)
        .path(b"/unlock")
        .add_header(b"X-RemoteUnlock-Signature", sig_b64.as_bytes())
        .unwrap()
        .append_body(&body)
        .unwrap()
        .build()
}

fn run_unlock(state: &mut State, req: &Request, record: &KeyRecord) -> (Response, Option<u128>) {
    let mut route = UnlockRoute::new();
    assert_eq!(UnlockRoute::key_query(req), Some(record.id));
    let resp = route.run(state, req, Some(&record.pem), 0);
    let committed = route.post_run(state, &resp).unwrap();
    (resp, committed)
}

#[test]
fn happy_path_enrollment() {
    // local-socket begin_enroll: 200 with {"code":C,"expires":E}
    let (resp, code) = handle_begin_enroll(NOW);
    assert_eq!(resp.status().to_u16(), 200);
    let expected = format!("{{\"code\":{},\"expires\":{}}}", code.code(), code.expires());
    assert_eq!(resp.body.as_bytes(), expected.as_bytes());
    assert!((100_000..1_000_000).contains(&code.code()));

    // enroll with the minted code within its lifetime
    let mut state = State::new();
    state.code_buffer().insert(code).unwrap();
    let (_, pem) = fresh_keypair_pem();
    let (resp, record) = enroll(&mut state, code.code(), &pem, NOW + 60);
    assert_eq!(resp.status().to_u16(), 200);
    let record = record.unwrap();
    let id_hex = id_to_hex(record.id);
    assert_eq!(id_hex.len(), 32);
    let expected = format!("{{\"id\":\"{}\"}}", String::from_utf8(id_hex).unwrap());
    assert_eq!(resp.body.as_bytes(), expected.as_bytes());
    // the stored canonical PEM is a loadable PUBLIC KEY
    assert!(PublicKey::from_pem(&record.pem).is_ok());
}

#[test]
fn code_replay_is_forbidden() {
    let mut state = State::new();
    let (_, code) = handle_begin_enroll(NOW);
    state.code_buffer().insert(code).unwrap();
    let (_, pem) = fresh_keypair_pem();
    let (resp, _) = enroll(&mut state, code.code(), &pem, NOW + 60);
    assert_eq!(resp.status().to_u16(), 200);
    let (resp, record) = enroll(&mut state, code.code(), &pem, NOW + 61);
    assert_eq!(resp.status().to_u16(), 403);
    assert!(record.is_none());
}

#[test]
fn expired_code_is_forbidden() {
    let mut state = State::new();
    let (_, code) = handle_begin_enroll(NOW);
    state.code_buffer().insert(code).unwrap();
    let (_, pem) = fresh_keypair_pem();
    // 31 minutes later
    let (resp, record) = enroll(&mut state, code.code(), &pem, NOW + 31 * 60);
    assert_eq!(resp.status().to_u16(), 403);
    assert!(record.is_none());
}

#[test]
fn unknown_code_is_forbidden() {
    let mut state = State::new();
    let (_, pem) = fresh_keypair_pem();
    let (resp, record) = enroll(&mut state, 123_456, &pem, NOW);
    assert_eq!(resp.status().to_u16(), 403);
    assert!(record.is_none());
}

#[test]
fn enrollment_with_bad_key_consumes_code() {
    let mut state = State::new();
    let (_, code) = handle_begin_enroll(NOW);
    state.code_buffer().insert(code).unwrap();
    let (resp, record) = enroll(&mut state, code.code(), "not a pem", NOW);
    assert_eq!(resp.status().to_u16(), 500);
    assert!(record.is_none());
    // enrollment is non-idempotent: the code is burnt
    let (_, pem) = fresh_keypair_pem();
    let (resp, _) = enroll(&mut state, code.code(), &pem, NOW);
    assert_eq!(resp.status().to_u16(), 403);
}

fn enrolled(state: &mut State) -> (SigningKey, KeyRecord) {
    let (signing_key, pem) = fresh_keypair_pem();
    let (_, code) = handle_begin_enroll(NOW);
    state.code_buffer().insert(code).unwrap();
    let (resp, record) = enroll(state, code.code(), &pem, NOW);
    assert_eq!(resp.status().to_u16(), 200);
    (signing_key, record.unwrap())
}

#[test]
fn unlock_first_time_and_replay() {
    let mut state = State::new();
    let (signing_key, record) = enrolled(&mut state);
    let id_hex = id_to_hex(record.id);

    // first unlock with nonce 42: 200, ledger becomes 43
    let req = unlock_request(&id_hex, 42, &signing_key);
    let (resp, committed) = run_unlock(&mut state, &req, &record);
    assert_eq!(resp.status().to_u16(), 200);
    assert_eq!(committed, Some(43));
    assert_eq!(state.get_nonce(&record.id), Some(&43));

    // byte-for-byte replay: 403, ledger still 43
    let (resp, committed) = run_unlock(&mut state, &req, &record);
    assert_eq!(resp.status().to_u16(), 403);
    assert_eq!(committed, None);
    assert_eq!(state.get_nonce(&record.id), Some(&43));
}

#[test]
fn unlock_strict_monotone_boundary() {
    let mut state = State::new();
    let (signing_key, record) = enrolled(&mut state);
    let id_hex = id_to_hex(record.id);

    let req = unlock_request(&id_hex, 42, &signing_key);
    let (resp, _) = run_unlock(&mut state, &req, &record);
    assert_eq!(resp.status().to_u16(), 200);

    // exactly the next acceptable value: accepted, ledger becomes 44
    let req = unlock_request(&id_hex, 43, &signing_key);
    let (resp, committed) = run_unlock(&mut state, &req, &record);
    assert_eq!(resp.status().to_u16(), 200);
    assert_eq!(committed, Some(44));

    // below: rejected
    let req = unlock_request(&id_hex, 42, &signing_key);
    let (resp, _) = run_unlock(&mut state, &req, &record);
    assert_eq!(resp.status().to_u16(), 403);

    // at the boundary again: accepted, ledger becomes 45
    let req = unlock_request(&id_hex, 44, &signing_key);
    let (resp, committed) = run_unlock(&mut state, &req, &record);
    assert_eq!(resp.status().to_u16(), 200);
    assert_eq!(committed, Some(45));
    assert_eq!(state.get_nonce(&record.id), Some(&45));
}

#[test]
fn unlock_bad_signature_is_forbidden_and_ledger_unchanged() {
    let mut state = State::new();
    let (signing_key, record) = enrolled(&mut state);
    let id_hex = id_to_hex(record.id);

    // signature over different bytes than the transmitted body
    let body = UnlockRequestBody { id: id_hex.clone(), nonce: 42 }.to_bytes();
    let sig: Signature = signing_key.sign(b"something else entirely");
    let sig_b64 = base64::engine::general_purpose::STANDARD.encode(sig.to_der().as_bytes());
    let req = Request::builder()
        .method(Method::Post)
        .path(b"/unlock")
        .add_header(b"X-RemoteUnlock-Signature", sig_b64.as_bytes())
        .unwrap()
        .append_body(&body)
        .unwrap()
        .build();
    let (resp, committed) = run_unlock(&mut state, &req, &record);
    assert_eq!(resp.status().to_u16(), 403);
    assert_eq!(committed, None);
    assert_eq!(state.get_nonce(&record.id), None);
}

#[test]
fn unlock_missing_key_is_not_found() {
    let mut state = State::new();
    let signing_key = SigningKey::random(&mut OsRng);
    let id_hex = id_to_hex(7);
    let req = unlock_request(&id_hex, 1, &signing_key);
    let mut route = UnlockRoute::new();
    let resp = route.run(&mut state, &req, None, 0);
    assert_eq!(resp.status().to_u16(), 404);
}

#[test]
fn unlock_malformed_body_is_bad_request() {
    let mut state = State::new();
    let (_, record) = enrolled(&mut state);
    let req = Request::builder()
        .method(Method::Post)
        .path(b"/unlock")
        .append_body(b"not json")
        .unwrap()
        .build();
    let mut route = UnlockRoute::new();
    let resp = route.run(&mut state, &req, Some(&record.pem), 0);
    assert_eq!(resp.status().to_u16(), 400);
    // ledger untouched
    assert_eq!(state.get_nonce(&record.id), None);
}

#[test]
fn unlock_missing_signature_is_bad_request() {
    let mut state = State::new();
    let (_, record) = enrolled(&mut state);
    let id_hex = id_to_hex(record.id);
    let body = UnlockRequestBody { id: id_hex, nonce: 42 }.to_bytes();
    let req = Request::builder()
        .method(Method::Post)
        .path(b"/unlock")
        .append_body(&body)
        .unwrap()
        .build();
    let mut route = UnlockRoute::new();
    let resp = route.run(&mut state, &req, Some(&record.pem), 0);
    assert_eq!(resp.status().to_u16(), 400);
}

#[test]
fn router_dispatches_on_path_and_method() {
    let router = Router::new();
    let enroll = Request::builder().method(Method::Post).path(b"/enroll").build();
    let unlock = Request::builder().method(Method::Post).path(b"/unlock").build();
    let get_enroll = Request::builder().method(Method::Get).path(b"/enroll").build();
    let other = Request::builder().method(Method::Post).path(b"/elsewhere").build();
    assert_eq!(router.route(&enroll), RouteChoice::Enroll);
    assert_eq!(router.route(&unlock), RouteChoice::Unlock);
    assert_eq!(router.route(&get_enroll), RouteChoice::NotFound);
    assert_eq!(router.route(&other), RouteChoice::NotFound);
}

#[test]
fn not_found_route_body() {
    let req = Request::builder().method(Method::Get).path(b"/nope").build();
    let mut route = NotFound::new();
    let resp = route.run(&req);
    assert_eq!(resp.status().to_u16(), 404);
    assert_eq!(resp.body.as_bytes(), b"404 Not Found");
    assert!(route.post_run(&resp).is_ok());
}

#[test]
fn test_post() {
    // an enrollment completion answered over the wire parses back as a 200
    let mut state = State::new();
    let (_, code) = handle_begin_enroll(NOW);
    let code_num = code.code();
    state.code_buffer().insert(code).unwrap();
    let (_, pem) = fresh_keypair_pem();
    let req = enroll_request(code_num, &pem);
    let (resp, _) = EnrollRoute::new().run(&mut state, &req, NOW);
    let wire = resp.to_bytes();
    let resp = Response::from_bytes(&wire).unwrap();
    assert!(resp.status() == Status::Okay);
}

#[test]
fn test_verify() {
    let signing_key = SigningKey::random(&mut OsRng);
    let verifying_key = signing_key.verifying_key();
    let unlock_request = UnlockRequestBody { id: b"test".to_vec(), nonce: 0 };

    let serial = unlock_request.to_bytes();
    let signature: Signature = signing_key.sign(&serial);

    let pubkey =
        PublicKey::from_der(verifying_key.to_public_key_der().unwrap().as_bytes()).unwrap();

    let valid = unlock_request
        .verify(signature.to_der().as_bytes(), &pubkey)
        .unwrap();
    assert!(valid);
}
