//! Tests of the snapshot loader against real certificate material.

use tls_reload::anchors::TrustAnchors;
use tls_reload::config::CommonConfig;
use tls_reload::errors::{CertFlaw, Error};

/// A wall-clock second count inside the validity window of the generated
/// certificates.
const NOW: u64 = 1_700_000_000;

struct Materials {
    ca_pem: Vec<u8>,
    leaf_der: Vec<u8>,
    key_der: Vec<u8>,
    leaf_public_key: Vec<u8>,
}

/// The error of an attempt expected to fail.
fn failure(r: Result<CommonConfig, Error>) -> Error {
    match r {
        Err(e) => e,
        Ok(_) => panic!("expected the load attempt to fail"),
    }
}

fn generate() -> Materials {
    let mut ca_params = rcgen::CertificateParams::new(Vec::<String>::new());
    ca_params.is_ca = rcgen::IsCa::Ca(rcgen::BasicConstraints::Unconstrained);
    let ca = rcgen::Certificate::from_params(ca_params).expect("ca");
    let ca_pem = ca.serialize_pem().expect("ca pem").into_bytes();

    let leaf_params = rcgen::CertificateParams::new(vec!["svc.example.test".to_string()]);
    let leaf = rcgen::Certificate::from_params(leaf_params).expect("leaf");
    let leaf_der = leaf.serialize_der_with_signer(&ca).expect("leaf der");
    let key_der = leaf.serialize_private_key_der();
    let leaf_public_key = leaf.get_key_pair().public_key_raw().to_vec();

    Materials { ca_pem, leaf_der, key_der, leaf_public_key }
}

#[test]
fn loads_consistent_triple() {
    let m = generate();
    let config = CommonConfig::load_from_parts(&m.ca_pem, &m.leaf_der, &m.key_der, NOW)
        .expect("consistent triple loads");
    let chain = config.cert_resolver.resolve();
    assert_eq!(chain.len(), 1);
    assert_eq!(chain[0], m.leaf_der);
}

#[test]
fn resolver_signs_challenge_verifiable_under_leaf_key() {
    let m = generate();
    let config = CommonConfig::load_from_parts(&m.ca_pem, &m.leaf_der, &m.key_der, NOW)
        .expect("consistent triple loads");
    let challenge = b"challenge of the day".to_vec();
    let signature = config.cert_resolver.sign(&challenge).expect("signing succeeds");
    let verifier = ring::signature::UnparsedPublicKey::new(
        &ring::signature::ECDSA_P256_SHA256_ASN1,
        m.leaf_public_key.as_slice(),
    );
    verifier.verify(&challenge, &signature).expect("signature verifies under the leaf key");
}

#[test]
fn identical_inputs_give_identical_results() {
    let m = generate();
    let first = CommonConfig::load_from_parts(&m.ca_pem, &m.leaf_der, &m.key_der, NOW)
        .expect("loads once");
    let second = CommonConfig::load_from_parts(&m.ca_pem, &m.leaf_der, &m.key_der, NOW)
        .expect("loads twice");
    assert_eq!(first.cert_resolver.resolve(), second.cert_resolver.resolve());

    let bad_key = vec![1u8, 2, 3];
    let e1 = failure(CommonConfig::load_from_parts(&m.ca_pem, &m.leaf_der, &bad_key, NOW));
    let e2 = failure(CommonConfig::load_from_parts(&m.ca_pem, &m.leaf_der, &bad_key, NOW));
    assert_eq!(e1, e2);
}

#[test]
fn mismatched_key_is_invalid_private_key() {
    let m = generate();
    let other = generate();
    let err = failure(CommonConfig::load_from_parts(&m.ca_pem, &m.leaf_der, &other.key_der, NOW));
    assert_eq!(err, Error::InvalidPrivateKey);
}

#[test]
fn garbage_key_is_invalid_private_key() {
    let m = generate();
    let garbage = b"i'm the new private key".to_vec();
    let err = failure(CommonConfig::load_from_parts(&m.ca_pem, &m.leaf_der, &garbage, NOW));
    assert_eq!(err, Error::InvalidPrivateKey);
}

#[test]
fn leaf_of_other_authority_is_untrusted() {
    let m = generate();
    let other = generate();
    let err = failure(CommonConfig::load_from_parts(&other.ca_pem, &m.leaf_der, &m.key_der, NOW));
    assert_eq!(err, Error::EndEntityCertIsNotValid(CertFlaw::Untrusted));
}

#[test]
fn expired_leaf_is_untrusted() {
    let m = generate();
    // far beyond the generated notAfter of year 4096
    let beyond: u64 = 99_999_999_999_999;
    let err = failure(CommonConfig::load_from_parts(&m.ca_pem, &m.leaf_der, &m.key_der, beyond));
    assert_eq!(err, Error::EndEntityCertIsNotValid(CertFlaw::Untrusted));
}

#[test]
fn malformed_leaf_is_rejected() {
    let m = generate();
    let garbage = b"I am not real end entity cert".to_vec();
    let err = failure(CommonConfig::load_from_parts(&m.ca_pem, &garbage, &m.key_der, NOW));
    assert_eq!(err, Error::EndEntityCertIsNotValid(CertFlaw::Malformed));
}

#[test]
fn anchors_without_certificate_block_fail() {
    let m = generate();
    let empty = b"Trust me on this :)\n".to_vec();
    let err = failure(CommonConfig::load_from_parts(&empty, &m.leaf_der, &m.key_der, NOW));
    assert_eq!(err, Error::FailedToParseTrustAnchors(None));
}

#[test]
fn second_bad_anchor_is_reported_by_index() {
    let m = generate();
    let mut pem = m.ca_pem.clone();
    pem.extend_from_slice(
        b"-----BEGIN CERTIFICATE-----\nZ2FyYmFnZQ==\n-----END CERTIFICATE-----\n",
    );
    let err = failure(CommonConfig::load_from_parts(&pem, &m.leaf_der, &m.key_der, NOW));
    assert_eq!(err, Error::FailedToParseTrustAnchors(Some(1)));
}

#[test]
fn trust_anchors_parse_from_pem() {
    let m = generate();
    let anchors = TrustAnchors::from_pem(&m.ca_pem).expect("anchors parse");
    assert_eq!(anchors.len(), 1);
    assert!(anchors.accepts(&m.leaf_der, NOW));
    let other = generate();
    assert!(!anchors.accepts(&other.leaf_der, NOW));
}
