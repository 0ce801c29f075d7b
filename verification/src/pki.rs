use vstd::prelude::*;
use base64::Engine;
use p256::ecdsa::signature::Verifier;
use spki::{DecodePublicKey, EncodePublicKey};

verus! {

use crate::errors::{Error, ErrorKind};

/// The P-256 public-key handling the protocol needs: decoding a PEM or DER
/// SubjectPublicKeyInfo, re-encoding it canonically, and checking ECDSA
/// (SHA-256) signatures.  The encodings themselves are done by an outside
/// library; the names below stand for what it computes, each a function of
/// its input bytes alone.

/// The canonical DER SubjectPublicKeyInfo that a PEM input decodes to, if the
/// input is a well-formed `PUBLIC KEY` PEM holding a valid P-256 key.
pub uninterp spec fn spki_of_pem(pem: Seq<u8>) -> Option<Seq<u8>>;

/// The canonical DER SubjectPublicKeyInfo that a DER input decodes to, if the
/// input is a well-formed SubjectPublicKeyInfo holding a valid P-256 key.
pub uninterp spec fn spki_of_der(der: Seq<u8>) -> Option<Seq<u8>>;

/// The canonical PEM form (label `PUBLIC KEY`, LF line endings) of a
/// canonical DER SubjectPublicKeyInfo.
pub uninterp spec fn pem_of_spki(spki: Seq<u8>) -> Seq<u8>;

/// Whether a DER-encoded ECDSA signature is well-formed.
pub uninterp spec fn sig_parses(sig: Seq<u8>) -> bool;

/// Whether a well-formed DER signature verifies over a message under the key
/// a canonical SubjectPublicKeyInfo denotes.
pub uninterp spec fn sig_ok(spki: Seq<u8>, msg: Seq<u8>, sig_der: Seq<u8>) -> bool;

/// The standard-alphabet base64 decoding of an input, if it is well-formed.
pub uninterp spec fn b64_of(s: Seq<u8>) -> Option<Seq<u8>>;

/// Relies on p256 and spki: `PublicKey::from_public_key_pem` decodes a
/// PEM-framed SubjectPublicKeyInfo, rejecting any label but `PUBLIC KEY` and
/// any key not a valid P-256 point; `to_public_key_der` writes the canonical
/// (uncompressed-point) SubjectPublicKeyInfo and `to_public_key_pem` its PEM
/// form with LF line endings.  Decoding is a function of the input bytes
/// alone, and the canonical forms decode back to the same key.
#[verifier::external_body]
fn p256_decode_pem(pem: &[u8]) -> (r: Result<(Vec<u8>, Vec<u8>), ()>)
    ensures
        r is Ok <==> spki_of_pem(pem@) is Some,
        r matches Ok((der, canon)) ==> spki_of_pem(pem@) == Some(der@) && canon@ == pem_of_spki(
            der@,
        ) && spki_of_der(der@) == Some(der@) && spki_of_pem(canon@) == Some(der@),
{
    let s = core::str::from_utf8(pem).map_err(|_| ())?;
    let key = p256::PublicKey::from_public_key_pem(s).map_err(|_| ())?;
    let der = key.to_public_key_der().map_err(|_| ())?.as_bytes().to_vec();
    let canon = key.to_public_key_pem(pkcs8::LineEnding::LF).map_err(|_| ())?;
    Ok((der, canon.into_bytes()))
}

/// Relies on p256 and spki exactly as the PEM decoder above, with
/// `PublicKey::from_public_key_der` reading the input.
#[verifier::external_body]
fn p256_decode_der(input: &[u8]) -> (r: Result<(Vec<u8>, Vec<u8>), ()>)
    ensures
        r is Ok <==> spki_of_der(input@) is Some,
        r matches Ok((der, canon)) ==> spki_of_der(input@) == Some(der@) && canon@ == pem_of_spki(
            der@,
        ) && spki_of_der(der@) == Some(der@) && spki_of_pem(canon@) == Some(der@),
{
    let key = p256::PublicKey::from_public_key_der(input).map_err(|_| ())?;
    let der = key.to_public_key_der().map_err(|_| ())?.as_bytes().to_vec();
    let canon = key.to_public_key_pem(pkcs8::LineEnding::LF).map_err(|_| ())?;
    Ok((der, canon.into_bytes()))
}

/// Relies on p256's ECDSA: `Signature::from_der` parses a DER signature (a
/// function of the bytes alone, and the only failing step on a canonical
/// key), and `VerifyingKey::verify` decides, deterministically in key,
/// message and signature, whether the signature is valid over the message.
#[verifier::external_body]
fn p256_verify(spki_der: &[u8], msg: &[u8], sig_der: &[u8]) -> (r: Result<bool, ()>)
    requires
        spki_of_der(spki_der@) == Some(spki_der@),
    ensures
        r is Ok <==> sig_parses(sig_der@),
        r matches Ok(b) ==> b == sig_ok(spki_der@, msg@, sig_der@),
{
    let key = p256::PublicKey::from_public_key_der(spki_der).map_err(|_| ())?;
    let vk = p256::ecdsa::VerifyingKey::from(key);
    let sig = p256::ecdsa::Signature::from_der(sig_der).map_err(|_| ())?;
    Ok(vk.verify(msg, &sig).is_ok())
}

/// Relies on base64: `STANDARD.decode` gives the standard-alphabet,
/// padding-checked decoding of the input, a function of the bytes alone.
#[verifier::external_body]
fn b64_decode(input: &[u8]) -> (r: Result<Vec<u8>, ()>)
    ensures
        r is Ok <==> b64_of(input@) is Some,
        r matches Ok(v) ==> b64_of(input@) == Some(v@),
{
    base64::engine::general_purpose::STANDARD.decode(input).map_err(|_| ())
}

/// Relies on uuid: `Uuid::new_v4` draws a fresh random identity.  Nothing is
/// promised of the value.
#[verifier::external_body]
pub(crate) fn fresh_id() -> u128 {
    uuid::Uuid::new_v4().as_u128()
}

/// A validated P-256 public key, held as its canonical DER
/// SubjectPublicKeyInfo together with its canonical PEM form.
#[derive(Debug)]
pub struct PublicKey {
    der: Vec<u8>,
    pem: Vec<u8>,
}

impl PublicKey {
    /// The canonical DER SubjectPublicKeyInfo.
    pub closed spec fn spec_der(&self) -> Seq<u8> {
        self.der@
    }

    /// The canonical PEM form.
    pub closed spec fn spec_pem(&self) -> Seq<u8> {
        self.pem@
    }

    /// The two forms are the canonical encodings of one valid key, and each
    /// decodes back to the same key.
    pub open spec fn wf(&self) -> bool {
        &&& spki_of_der(self.spec_der()) == Some(self.spec_der())
        &&& self.spec_pem() == pem_of_spki(self.spec_der())
        &&& spki_of_pem(self.spec_pem()) == Some(self.spec_der())
    }

    /// Decode a PEM `PUBLIC KEY`; fails exactly on inputs the PEM decoder
    /// rejects.
    pub fn from_pem(bytes: &[u8]) -> (r: Result<PublicKey, Error>)
        ensures
            r is Ok <==> spki_of_pem(bytes@) is Some,
            r matches Ok(k) ==> k.wf() && spki_of_pem(bytes@) == Some(k.spec_der()),
            r matches Err(e) ==> e.spec_kind() == ErrorKind::KeyMalformed,
    {
        match p256_decode_pem(bytes) {
            Ok((der, pem)) => Ok(PublicKey { der, pem }),
            Err(()) => Err(Error::new(ErrorKind::KeyMalformed, Some("not a PEM public key"))),
        }
    }

    /// Decode a DER SubjectPublicKeyInfo; fails exactly on inputs the DER
    /// decoder rejects.
    pub fn from_der(bytes: &[u8]) -> (r: Result<PublicKey, Error>)
        ensures
            r is Ok <==> spki_of_der(bytes@) is Some,
            r matches Ok(k) ==> k.wf() && spki_of_der(bytes@) == Some(k.spec_der()),
            r matches Err(e) ==> e.spec_kind() == ErrorKind::KeyMalformed,
    {
        match p256_decode_der(bytes) {
            Ok((der, pem)) => Ok(PublicKey { der, pem }),
            Err(()) => Err(Error::new(ErrorKind::KeyMalformed, Some("not a DER public key"))),
        }
    }

    /// The canonical DER form.
    pub fn der(&self) -> (r: &Vec<u8>)
        ensures
            r@ == self.spec_der(),
    {
        &self.der
    }

    /// The canonical PEM form: what the key store writes to disk.
    pub fn pem(&self) -> (r: &Vec<u8>)
        ensures
            r@ == self.spec_pem(),
    {
        &self.pem
    }

    /// Check a DER-encoded ECDSA signature over `msg`; fails exactly when the
    /// signature bytes are not a well-formed DER signature.
    pub fn verify(&self, msg: &[u8], sig_der: &[u8]) -> (r: Result<bool, Error>)
        requires
            self.wf(),
        ensures
            r is Ok <==> sig_parses(sig_der@),
            r matches Ok(b) ==> b == sig_ok(self.spec_der(), msg@, sig_der@),
            r matches Err(e) ==> e.spec_kind() == ErrorKind::SignatureMalformed,
    {
        match p256_verify(self.der.as_slice(), msg, sig_der) {
            Ok(b) => Ok(b),
            Err(()) => Err(
                Error::new(ErrorKind::SignatureMalformed, Some("signature is not DER")),
            ),
        }
    }
}

/// Decode a base64 signature header value; fails exactly on inputs the
/// decoder rejects.
pub fn decode_base64(input: &[u8]) -> (r: Result<Vec<u8>, Error>)
    ensures
        r is Ok <==> b64_of(input@) is Some,
        r matches Ok(v) ==> b64_of(input@) == Some(v@),
        r matches Err(e) ==> e.spec_kind() == ErrorKind::SignatureMalformed,
{
    match b64_decode(input) {
        Ok(v) => Ok(v),
        Err(()) => Err(Error::new(ErrorKind::SignatureMalformed, Some("signature is not base64"))),
    }
}

/// Writing a key out and reading it back yields the same key: the canonical
/// PEM of a decoded key decodes to the same canonical SubjectPublicKeyInfo,
/// so a key stored at enrollment verifies exactly the signatures the posted
/// key would.
pub proof fn lemma_pem_round_trip(pem: Seq<u8>, der: Seq<u8>, canon: Seq<u8>)
    requires
        spki_of_pem(pem) == Some(der),
        canon == pem_of_spki(der),
        spki_of_pem(canon) == Some(der),
    ensures
        spki_of_pem(canon) == spki_of_pem(pem),
        pem_of_spki(spki_of_pem(canon)->Some_0) == canon,
{
}

} // verus!
