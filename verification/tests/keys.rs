use p256::ecdsa::signature::Signer;
use p256::ecdsa::{Signature, SigningKey};
use rand::rngs::OsRng;
use spki::EncodePublicKey;

use remote_unlock::errors::ErrorKind;
use remote_unlock::pki::{decode_base64, PublicKey};

fn fresh_pem() -> (SigningKey, String) {
    let signing_key = SigningKey::random(&mut OsRng);
    let pem = signing_key
        .verifying_key()
        .to_public_key_pem(pkcs8::LineEnding::LF)
        .unwrap();
    (signing_key, pem)
}

#[test]
fn pem_write_read_round_trip_is_byte_identical() {
    let (_, pem) = fresh_pem();
    let k1 = PublicKey::from_pem(pem.as_bytes()).unwrap();
    // what the store writes is the canonical PEM; loading it back gives the
    // same bytes and the same key
    let k2 = PublicKey::from_pem(k1.pem().as_slice()).unwrap();
    assert_eq!(k1.pem(), k2.pem());
    assert_eq!(k1.der(), k2.der());
}

#[test]
fn pem_with_crlf_normalizes_to_lf() {
    let (_, pem) = fresh_pem();
    let crlf = pem.replace('\n', "\r\n");
    let k = PublicKey::from_pem(crlf.as_bytes()).unwrap();
    assert_eq!(k.pem().as_slice(), pem.as_bytes());
    assert!(!k.pem().windows(2).any(|w| w == b"\r\n"));
}

#[test]
fn pem_and_der_forms_agree() {
    let (signing_key, pem) = fresh_pem();
    let from_pem = PublicKey::from_pem(pem.as_bytes()).unwrap();
    let der = signing_key.verifying_key().to_public_key_der().unwrap();
    let from_der = PublicKey::from_der(der.as_bytes()).unwrap();
    assert_eq!(from_pem.der(), from_der.der());
    assert_eq!(from_pem.pem(), from_der.pem());
}

#[test]
fn malformed_keys_are_rejected() {
    let err = PublicKey::from_pem(b"not a pem at all").unwrap_err();
    assert!(matches!(err.kind(), ErrorKind::KeyMalformed));
    let err = PublicKey::from_der(&[0x30, 0x03, 0x01, 0x01, 0x00]).unwrap_err();
    assert!(matches!(err.kind(), ErrorKind::KeyMalformed));
    // a PEM with the wrong label is refused even if the DER inside is fine
    let (_, pem) = fresh_pem();
    let mislabeled = pem
        .replace("BEGIN PUBLIC KEY", "BEGIN CERTIFICATE")
        .replace("END PUBLIC KEY", "END CERTIFICATE");
    assert!(PublicKey::from_pem(mislabeled.as_bytes()).is_err());
}

#[test]
fn signature_verification_distinguishes_messages() {
    let (signing_key, pem) = fresh_pem();
    let key = PublicKey::from_pem(pem.as_bytes()).unwrap();
    let msg = b"the exact transmitted bytes";
    let sig: Signature = signing_key.sign(msg);
    let der = sig.to_der();
    assert!(key.verify(msg, der.as_bytes()).unwrap());
    assert!(!key.verify(b"tampered bytes", der.as_bytes()).unwrap());
    // a signature from another key fails too
    let (other_key, _) = fresh_pem();
    let other_sig: Signature = other_key.sign(msg);
    let other_der = other_sig.to_der();
    assert!(!key.verify(msg, other_der.as_bytes()).unwrap());
    // bytes that are not DER at all are malformed, not merely invalid
    let err = key.verify(msg, b"junk").unwrap_err();
    assert!(matches!(err.kind(), ErrorKind::SignatureMalformed));
}

#[test]
fn base64_decoding() {
    assert_eq!(decode_base64(b"aGVsbG8=").unwrap(), b"hello");
    assert_eq!(decode_base64(b"").unwrap(), b"");
    let err = decode_base64(b"@@@@").unwrap_err();
    assert!(matches!(err.kind(), ErrorKind::SignatureMalformed));
}
