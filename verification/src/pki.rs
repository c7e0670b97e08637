//! Trusted bindings to the outside cryptography crates.
//!
//! Parsing X.509 structures, validating a certificate path, and handling
//! PKCS#8 keys are delegated to webpki, ring, and x509-cert. Each binding
//! is a thin wrapper whose contract names what the call returns; the
//! results of the deterministic calls are given names, since their exact
//! values cannot reasonably be restated here.

use vstd::prelude::*;

use p256::elliptic_curve::sec1::ToEncodedPoint;
use p256::pkcs8::DecodePrivateKey;
use x509_cert::der::Decode;

verus! {

/// Whether webpki accepts the DER bytes as a trust anchor certificate.
pub uninterp spec fn anchor_parseable(der: Seq<u8>) -> bool;

/// Whether webpki accepts the DER bytes as an end-entity certificate.
pub uninterp spec fn leaf_parseable(der: Seq<u8>) -> bool;

/// Whether webpki's TLS-server path validation accepts the end-entity
/// certificate under the single given trust anchor at the given time.
pub uninterp spec fn anchor_accepts(anchor_der: Seq<u8>, leaf_der: Seq<u8>, now_secs: u64) -> bool;

/// Whether x509-cert can read the certificate's `subjectPublicKeyInfo`.
pub uninterp spec fn spki_readable(der: Seq<u8>) -> bool;

/// The public key bit string of the certificate's `subjectPublicKeyInfo`.
pub uninterp spec fn spki_of(der: Seq<u8>) -> Seq<u8>;

/// Whether p256 accepts the bytes as a PKCS#8 ECDSA P-256 private key.
pub uninterp spec fn key_parseable(pkcs8_der: Seq<u8>) -> bool;

/// The uncompressed public key point derived from the PKCS#8 private key.
pub uninterp spec fn key_pub_of(pkcs8_der: Seq<u8>) -> Seq<u8>;

/// Whether the bytes are a valid ECDSA P-256 ASN.1 signature of the
/// message under the uncompressed public key point. Verification is
/// deterministic in these three values.
pub uninterp spec fn ecdsa_p256_verifies(pub_key: Seq<u8>, msg: Seq<u8>, sig: Seq<u8>) -> bool;

/// Relies on `webpki::TrustAnchor::try_from_cert_der`: whether the bytes
/// parse as a trust anchor depends on the bytes alone.
#[verifier::external_body]
pub fn anchor_ok(der: &Vec<u8>) -> (r: bool)
    ensures
        r == anchor_parseable(der@),
{
    webpki::TrustAnchor::try_from_cert_der(der.as_slice()).is_ok()
}

/// Relies on `webpki::EndEntityCert::try_from`: whether the bytes parse as
/// an end-entity certificate depends on the bytes alone.
#[verifier::external_body]
pub fn leaf_ok(der: &Vec<u8>) -> (r: bool)
    ensures
        r == leaf_parseable(der@),
{
    webpki::EndEntityCert::try_from(der.as_slice()).is_ok()
}

/// Relies on webpki's X.509 TLS-server path validation:
/// `TrustAnchor::try_from_cert_der`, `EndEntityCert::try_from`,
/// `Time::from_seconds_since_unix_epoch`, and
/// `EndEntityCert::verify_is_valid_tls_server_cert` over the ECDSA P-256 and
/// P-384 signature algorithms, with no intermediates. The outcome depends on
/// the two certificates and the time alone.
#[verifier::external_body]
pub fn leaf_valid_for_anchor(anchor_der: &Vec<u8>, leaf_der: &Vec<u8>, now_secs: u64) -> (r: bool)
    ensures
        r == anchor_accepts(anchor_der@, leaf_der@, now_secs),
{
    let algs: &[&webpki::SignatureAlgorithm] =
        &[&webpki::ECDSA_P256_SHA256, &webpki::ECDSA_P384_SHA384];
    let time = webpki::Time::from_seconds_since_unix_epoch(now_secs);
    let anchor = webpki::TrustAnchor::try_from_cert_der(anchor_der.as_slice());
    let cert = webpki::EndEntityCert::try_from(leaf_der.as_slice());
    match (anchor, cert) {
        (Ok(a), Ok(c)) => c
            .verify_is_valid_tls_server_cert(algs, &webpki::TlsServerTrustAnchors(&[a]), &[], time)
            .is_ok(),
        _ => false,
    }
}

/// Relies on `x509_cert::Certificate::from_der` and
/// `der::asn1::BitString::raw_bytes`: the certificate's public key bytes
/// depend on the certificate bytes alone.
#[verifier::external_body]
pub fn cert_public_key(der: &Vec<u8>) -> (r: Option<Vec<u8>>)
    ensures
        r is Some <==> spki_readable(der@),
        (r matches Some(k) ==> k@ == spki_of(der@)),
{
    match x509_cert::Certificate::from_der(der.as_slice()) {
        Ok(c) => Some(
            c.tbs_certificate.subject_public_key_info.subject_public_key.raw_bytes().to_vec(),
        ),
        Err(_) => None,
    }
}

/// Relies on `p256::SecretKey::from_pkcs8_der`, `SecretKey::public_key`,
/// and the SEC1 uncompressed point encoding: both the acceptance of the
/// key and the public point derived from its private scalar are computed
/// without randomness, so they depend on the key bytes alone.
#[verifier::external_body]
pub fn key_public_key(der: &Vec<u8>) -> (r: Option<Vec<u8>>)
    ensures
        r is Some <==> key_parseable(der@),
        (r matches Some(k) ==> k@ == key_pub_of(der@)),
{
    match p256::SecretKey::from_pkcs8_der(der.as_slice()) {
        Ok(key) => Some(key.public_key().to_encoded_point(false).as_bytes().to_vec()),
        Err(_) => None,
    }
}

/// Relies on `ring::signature::EcdsaKeyPair::from_pkcs8` and
/// `EcdsaKeyPair::sign` with `ring::rand::SystemRandom`. Ring can reject
/// the key or fail to sign when the process random source fails, so no
/// success is promised and nothing is stated of the randomized signature
/// bytes; a signature that does come back is, per ring's documentation of
/// `sign`, an ECDSA P-256 ASN.1 signature of the message under the key's
/// public point — for a key that p256 parses, the named point.
#[verifier::external_body]
pub fn sign_message(key_der: &Vec<u8>, msg: &Vec<u8>) -> (r: Option<Vec<u8>>)
    ensures
        r matches Some(s) ==> (key_parseable(key_der@) ==> ecdsa_p256_verifies(
            key_pub_of(key_der@),
            msg@,
            s@,
        )),
{
    let alg = &ring::signature::ECDSA_P256_SHA256_ASN1_SIGNING;
    let kp = match ring::signature::EcdsaKeyPair::from_pkcs8(alg, key_der.as_slice()) {
        Ok(kp) => kp,
        Err(_) => return None,
    };
    let rng = ring::rand::SystemRandom::new();
    match kp.sign(&rng, msg.as_slice()) {
        Ok(sig) => Some(sig.as_ref().to_vec()),
        Err(_) => None,
    }
}

} // verus!
