//! Settings, the snapshot loader, and the derived client and server
//! configurations.

use vstd::prelude::*;

use crate::anchors::{anchors_outcome, TrustAnchors};
use crate::bytes::copy_bytes;
use crate::errors::Error;
use crate::pki;
use crate::resolver::{snapshot_outcome, CertResolver, SnapshotModel};

verus! {

/// A TLS protocol version the server view may negotiate.
#[derive(Clone, Copy, Debug, PartialEq, Eq, Structural)]
pub enum TlsVersion {
    Tls12,
    Tls13,
}

/// Not-yet-validated settings used for both TLS clients and TLS servers:
/// the three paths the credential files are read from. Immutable after
/// construction; any path may not yet exist.
///
/// The trust anchors are PEM because the deployment's configuration store
/// carries textual data and PEM interoperably holds several anchors; the
/// end-entity certificate and private key are DER to save secret-store
/// space.
#[derive(Debug)]
pub struct CommonSettings {
    /// Path of the trust anchors, concatenated PEM X.509 certificates.
    pub trust_anchors: String,
    /// Path of the end-entity certificate, a DER X.509 certificate.
    pub end_entity_cert: String,
    /// Path of the private key, DER PKCS#8.
    pub private_key: String,
}

impl CommonSettings {
    /// The three watched paths, in the order they are read.
    pub fn paths(&self) -> (r: Vec<String>)
        ensures
            r@.len() == 3,
            r@[0] == self.trust_anchors,
            r@[1] == self.end_entity_cert,
            r@[2] == self.private_key,
    {
        let mut r: Vec<String> = Vec::new();
        r.push(self.trust_anchors.clone());
        r.push(self.end_entity_cert.clone());
        r.push(self.private_key.clone());
        r
    }
}

impl Clone for CommonSettings {
    /// The clone names the same paths.
    fn clone(&self) -> (r: Self)
        ensures
            r == *self,
    {
        CommonSettings {
            trust_anchors: self.trust_anchors.clone(),
            end_entity_cert: self.end_entity_cert.clone(),
            private_key: self.private_key.clone(),
        }
    }
}

/// The error of one snapshot attempt over the three file byte strings, or
/// `None` when the attempt succeeds: the trust-anchors file must parse
/// into a nonempty anchor set, the end-entity certificate must parse and
/// chain to one of the anchors at the given time, and the private key
/// must parse and match the certificate's public key.
pub open spec fn load_outcome(
    anchors_pem: Seq<u8>,
    leaf: Seq<u8>,
    key: Seq<u8>,
    now_secs: u64,
) -> Option<Error> {
    match anchors_outcome(anchors_pem) {
        Err(e) => Some(e),
        Ok(certs) => snapshot_outcome(certs, leaf, key, now_secs),
    }
}

/// The snapshot a successful attempt over the given bytes publishes.
pub open spec fn loaded_model(
    anchors_pem: Seq<u8>,
    leaf: Seq<u8>,
    key: Seq<u8>,
    now_secs: u64,
) -> SnapshotModel {
    SnapshotModel {
        leaf,
        key,
        anchors: match anchors_outcome(anchors_pem) {
            Ok(certs) => certs,
            Err(_) => Seq::empty(),
        },
        checked_at: now_secs,
    }
}

/// Validated configuration common between TLS clients and TLS servers.
pub struct CommonConfig {
    /// The resolver holding the validated chain and key.
    pub cert_resolver: CertResolver,
}

impl CommonConfig {
    /// The snapshot this configuration carries.
    pub open spec fn model(self) -> SnapshotModel {
        self.cert_resolver.model()
    }

    /// One snapshot attempt: a pure function of the three file byte
    /// strings and of the time path validation is performed at. Either a
    /// fully validated bundle or the specific error; never a partial
    /// value. `load_outcome` decides the result, so identical inputs give
    /// identical results.
    ///
    /// In a valid configuration the files are mutually in sync: the
    /// private key belongs to the end-entity certificate, and the
    /// certificate is issued under an anchor of the trust-anchors file.
    /// Filesystem updates are not atomic, so a caller retries on error
    /// after the files change again.
    pub fn load_from_parts(
        anchors_pem: &Vec<u8>,
        leaf_der: &Vec<u8>,
        key_der: &Vec<u8>,
        now_secs: u64,
    ) -> (r: Result<CommonConfig, Error>)
        ensures
            match r {
                Ok(c) => {
                    &&& load_outcome(anchors_pem@, leaf_der@, key_der@, now_secs) is None
                    &&& c.model() == loaded_model(anchors_pem@, leaf_der@, key_der@, now_secs)
                },
                Err(e) => load_outcome(anchors_pem@, leaf_der@, key_der@, now_secs) == Some(e),
            },
    {
        let anchors = match TrustAnchors::from_pem(anchors_pem) {
            Ok(a) => a,
            Err(e) => {
                return Err(e);
            },
        };
        let mut chain: Vec<Vec<u8>> = Vec::new();
        chain.push(copy_bytes(leaf_der));
        let key = copy_bytes(key_der);
        match CertResolver::new(&anchors, chain, key, now_secs) {
            Ok(res) => Ok(CommonConfig { cert_resolver: res }),
            Err(e) => Err(e),
        }
    }
}

/// Validated configuration for TLS clients, carrying the shared resolver.
pub struct ClientConfig {
    /// The resolver shared with the server view of the same generation.
    pub cert_resolver: CertResolver,
}

impl ClientConfig {
    /// Derive the client view of a validated bundle.
    pub fn from(common: &CommonConfig) -> (r: ClientConfig)
        ensures
            r.cert_resolver.model() == common.model(),
    {
        ClientConfig { cert_resolver: common.cert_resolver.clone() }
    }
}

impl Clone for ClientConfig {
    /// The clone carries the same snapshot.
    fn clone(&self) -> (r: Self)
        ensures
            r.cert_resolver.model() == self.cert_resolver.model(),
    {
        ClientConfig { cert_resolver: self.cert_resolver.clone() }
    }
}

/// Validated configuration for TLS servers: the shared resolver and the
/// negotiable protocol versions.
pub struct ServerConfig {
    /// The resolver shared with the client view of the same generation.
    pub cert_resolver: CertResolver,
    /// The permitted protocol versions.
    pub versions: Vec<TlsVersion>,
}

impl ServerConfig {
    /// Derive the server view of a validated bundle: the shared resolver,
    /// and the conservative protocol-version set.
    pub fn from(common: &CommonConfig) -> (r: ServerConfig)
        ensures
            r.cert_resolver.model() == common.model(),
            r.versions@ == seq![TlsVersion::Tls12],
    {
        let mut versions: Vec<TlsVersion> = Vec::new();
        set_common_settings(&mut versions);
        ServerConfig { cert_resolver: common.cert_resolver.clone(), versions }
    }
}

impl Clone for ServerConfig {
    /// The clone carries the same snapshot and versions.
    fn clone(&self) -> (r: Self)
        ensures
            r.cert_resolver.model() == self.cert_resolver.model(),
            r.versions@ == self.versions@,
    {
        let mut versions: Vec<TlsVersion> = Vec::new();
        let mut i: usize = 0;
        while i < self.versions.len()
            invariant
                i <= self.versions@.len(),
                versions@ == self.versions@.subrange(0, i as int),
            decreases self.versions.len() - i,
        {
            versions.push(self.versions[i]);
            proof {
                assert(versions@ =~= self.versions@.subrange(0, i as int + 1));
            }
            i = i + 1;
        }
        proof {
            assert(self.versions@.subrange(0, self.versions@.len() as int) =~= self.versions@);
        }
        ServerConfig { cert_resolver: self.cert_resolver.clone(), versions }
    }
}

/// Restrict the negotiable protocol versions to TLS 1.2 alone, the
/// conservative choice of this core.
pub fn set_common_settings(versions: &mut Vec<TlsVersion>) -> (r: ())
    ensures
        final(versions)@ == seq![TlsVersion::Tls12],
{
    let mut fresh: Vec<TlsVersion> = Vec::new();
    fresh.push(TlsVersion::Tls12);
    *versions = fresh;
    proof {
        assert(versions@ =~= seq![TlsVersion::Tls12]);
    }
}

/// A successful attempt holds a key matching the certificate: whenever a
/// snapshot loads from the three byte strings, the private key parses and
/// its public half equals the end-entity certificate's public key.
pub proof fn lemma_load_key_matches(anchors_pem: Seq<u8>, leaf: Seq<u8>, key: Seq<u8>, now: u64)
    requires
        load_outcome(anchors_pem, leaf, key, now) is None,
    ensures
        pki::key_parseable(key),
        pki::key_pub_of(key) == pki::spki_of(leaf),
{
}

/// A successful attempt holds a trusted certificate: whenever a snapshot
/// loads, the trust-anchors file parses, and at least one of its anchors
/// accepts the end-entity certificate at the validation time.
pub proof fn lemma_load_leaf_anchored(anchors_pem: Seq<u8>, leaf: Seq<u8>, key: Seq<u8>, now: u64)
    requires
        load_outcome(anchors_pem, leaf, key, now) is None,
    ensures
        anchors_outcome(anchors_pem) is Ok,
        exists|i: int|
            0 <= i < loaded_model(anchors_pem, leaf, key, now).anchors.len()
                && pki::anchor_accepts(
                loaded_model(anchors_pem, leaf, key, now).anchors[i],
                leaf,
                now,
            ),
{
    match anchors_outcome(anchors_pem) {
        Ok(certs) => {
            let k = choose|i: int|
                0 <= i < certs.len() && pki::anchor_accepts(certs[i], leaf, now);
            assert(0 <= k < certs.len() && pki::anchor_accepts(certs[k], leaf, now));
            let m = loaded_model(anchors_pem, leaf, key, now);
            assert(m.anchors == certs);
            assert(pki::anchor_accepts(m.anchors[k], leaf, now));
        },
        Err(_) => {
            assert(false);
        },
    }
}

} // verus!
