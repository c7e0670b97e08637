//! The error taxonomy of a snapshot attempt.

use vstd::prelude::*;

verus! {

/// Why the end-entity certificate was rejected.
#[derive(Clone, Copy, Debug, PartialEq, Eq, Structural)]
pub enum CertFlaw {
    /// The certificate bytes do not parse.
    Malformed,
    /// No trust anchor accepts the certificate.
    Untrusted,
}

/// A failed snapshot attempt. Every variant is recoverable: the next
/// change of the files retries, and a failure leaves the previously
/// published configuration in force.
#[derive(Debug, PartialEq, Eq)]
pub enum Error {
    /// A file could not be read; carries the path and a rendering of the
    /// cause.
    Io(String, String),
    /// The trust-anchors file is empty, not PEM, or holds a certificate
    /// that is no valid anchor; carries the index of the first offending
    /// certificate when there is one.
    FailedToParseTrustAnchors(Option<usize>),
    /// The end-entity certificate fails parsing or path validation.
    EndEntityCertIsNotValid(CertFlaw),
    /// The private key is unparseable, or its public half does not match
    /// the end-entity certificate.
    InvalidPrivateKey,
    /// Wall-clock normalization for path validation failed.
    TimeConversionFailed,
}

} // verus!
