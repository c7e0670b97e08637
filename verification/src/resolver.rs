//! The credential resolver: the validated key material, ready to answer
//! "which certificate and signer should I present?" at handshake time.

use vstd::prelude::*;

use crate::anchors::TrustAnchors;
use crate::bytes::{bytes_eq, copy_bytes};
use crate::errors::{CertFlaw, Error};
use crate::pem;
use crate::pki;

verus! {

/// The mathematical content of a validated snapshot.
pub struct SnapshotModel {
    /// DER bytes of the end-entity certificate.
    pub leaf: Seq<u8>,
    /// DER bytes of the PKCS#8 private key.
    pub key: Seq<u8>,
    /// DER bytes of the anchors the certificate was validated against.
    pub anchors: Seq<Seq<u8>>,
    /// Seconds since the epoch at which path validation was performed.
    pub checked_at: u64,
}

/// A snapshot is consistent when its certificate and key parse, the key's
/// public half equals the certificate's `subjectPublicKeyInfo`, and at
/// least one anchor accepted the certificate at the recorded time.
pub open spec fn snapshot_consistent(m: SnapshotModel) -> bool {
    &&& pki::leaf_parseable(m.leaf)
    &&& pki::spki_readable(m.leaf)
    &&& pki::key_parseable(m.key)
    &&& pki::key_pub_of(m.key) == pki::spki_of(m.leaf)
    &&& exists|i: int|
        0 <= i < m.anchors.len() && pki::anchor_accepts(m.anchors[i], m.leaf, m.checked_at)
}

/// The error of validating a certificate and key against an anchor set, or
/// `None` when the snapshot is consistent. The certificate is judged
/// before the key, so that a misconfiguration reports the certificate
/// error first.
pub open spec fn snapshot_outcome(
    anchors: Seq<Seq<u8>>,
    leaf: Seq<u8>,
    key: Seq<u8>,
    now_secs: u64,
) -> Option<Error> {
    if !pki::leaf_parseable(leaf) {
        Some(Error::EndEntityCertIsNotValid(CertFlaw::Malformed))
    } else if !(exists|i: int|
        0 <= i < anchors.len() && pki::anchor_accepts(anchors[i], leaf, now_secs)) {
        Some(Error::EndEntityCertIsNotValid(CertFlaw::Untrusted))
    } else if !pki::spki_readable(leaf) || !pki::key_parseable(key) || pki::key_pub_of(key)
        != pki::spki_of(leaf) {
        Some(Error::InvalidPrivateKey)
    } else {
        None
    }
}

/// A consistent snapshot never validates as anything but `None`.
pub proof fn lemma_snapshot_outcome_none(m: SnapshotModel)
    ensures
        snapshot_consistent(m) <==> snapshot_outcome(m.anchors, m.leaf, m.key, m.checked_at)
            is None,
{
}

/// Handshake-time credential source. Immutable once built; a new resolver
/// is constructed for every validated snapshot. Every value of this type
/// is a consistent snapshot: the construction validates, and nothing
/// mutates.
pub struct CertResolver {
    chain: Vec<Vec<u8>>,
    key_der: Vec<u8>,
    anchors: Ghost<Seq<Seq<u8>>>,
    checked_at: Ghost<u64>,
}

impl CertResolver {
    /// The certificate chain: currently the single end-entity certificate,
    /// a list to accommodate future intermediates.
    pub closed spec fn chain_model(self) -> Seq<Seq<u8>> {
        self.chain@.map_values(|c: Vec<u8>| c@)
    }

    /// The snapshot this resolver was built from.
    pub closed spec fn model(self) -> SnapshotModel {
        SnapshotModel {
            leaf: self.chain@[0]@,
            key: self.key_der@,
            anchors: self.anchors@,
            checked_at: self.checked_at@,
        }
    }

    /// The chain is exactly the end-entity certificate.
    pub open spec fn chain_is_leaf(self) -> bool {
        self.chain_model() == seq![self.model().leaf]
    }

    #[verifier::type_invariant]
    spec fn inv(self) -> bool {
        snapshot_consistent(self.model()) && self.chain_is_leaf()
    }

    /// Validate a certificate chain and private key against the anchors
    /// and build the resolver. This is the consistency check of the
    /// snapshot: the certificate must chain to an anchor at the given
    /// time, and the key's public half must equal the certificate's.
    pub fn new(
        anchors: &TrustAnchors,
        chain: Vec<Vec<u8>>,
        key_der: Vec<u8>,
        now_secs: u64,
    ) -> (r: Result<CertResolver, Error>)
        requires
            chain@.len() == 1,
        ensures
            match r {
                Ok(res) => {
                    &&& snapshot_outcome(anchors.model(), chain@[0]@, key_der@, now_secs) is None
                    &&& res.model() == (SnapshotModel {
                        leaf: chain@[0]@,
                        key: key_der@,
                        anchors: anchors.model(),
                        checked_at: now_secs,
                    })
                    &&& snapshot_consistent(res.model())
                },
                Err(e) => snapshot_outcome(anchors.model(), chain@[0]@, key_der@, now_secs)
                    == Some(e),
            },
    {
        if !pki::leaf_ok(&chain[0]) {
            return Err(Error::EndEntityCertIsNotValid(CertFlaw::Malformed));
        }
        if !anchors.accepts(&chain[0], now_secs) {
            return Err(Error::EndEntityCertIsNotValid(CertFlaw::Untrusted));
        }
        let spki = match pki::cert_public_key(&chain[0]) {
            Some(k) => k,
            None => {
                return Err(Error::InvalidPrivateKey);
            },
        };
        let kpub = match pki::key_public_key(&key_der) {
            Some(k) => k,
            None => {
                return Err(Error::InvalidPrivateKey);
            },
        };
        if !bytes_eq(&spki, &kpub) {
            return Err(Error::InvalidPrivateKey);
        }
        proof {
            assert(chain@.map_values(|c: Vec<u8>| c@) =~= seq![chain@[0]@]);
            let k = choose|i: int|
                0 <= i < anchors.model().len() && pki::anchor_accepts(
                    anchors.model()[i],
                    chain@[0]@,
                    now_secs,
                );
            assert(0 <= k < anchors.model().len());
            assert(pki::anchor_accepts(anchors.model()[k], chain@[0]@, now_secs));
            let m = SnapshotModel {
                leaf: chain@[0]@,
                key: key_der@,
                anchors: anchors.model(),
                checked_at: now_secs,
            };
            assert(pki::anchor_accepts(m.anchors[k], m.leaf, m.checked_at));
            assert(snapshot_consistent(m));
        }
        let res = CertResolver {
            chain,
            key_der,
            anchors: Ghost(anchors.model()),
            checked_at: Ghost(now_secs),
        };
        Ok(res)
    }

    /// The certificate chain to present. The same chain is returned for
    /// every handshake request: the resolver does not branch on the
    /// request.
    pub fn resolve(&self) -> (r: &Vec<Vec<u8>>)
        ensures
            pem::views_of(r@) == self.chain_model(),
            pem::views_of(r@) == seq![self.model().leaf],
            snapshot_consistent(self.model()),
    {
        proof {
            use_type_invariant(&*self);
        }
        &self.chain
    }

    /// Sign a message with the held private key. The signature is
    /// randomized, and `None` can come back when the process random source
    /// fails, so no success is promised; but every signature returned
    /// verifies under the key's public point, which equals the end-entity
    /// certificate's public key.
    pub fn sign(&self, msg: &Vec<u8>) -> (r: Option<Vec<u8>>)
        ensures
            snapshot_consistent(self.model()),
            r matches Some(s) ==> pki::ecdsa_p256_verifies(
                pki::key_pub_of(self.model().key),
                msg@,
                s@,
            ),
            r matches Some(s) ==> pki::ecdsa_p256_verifies(
                pki::spki_of(self.model().leaf),
                msg@,
                s@,
            ),
    {
        proof {
            use_type_invariant(&*self);
        }
        pki::sign_message(&self.key_der, msg)
    }
}

impl Clone for CertResolver {
    /// The clone carries the same snapshot.
    fn clone(&self) -> (r: Self)
        ensures
            r.model() == self.model(),
            r.chain_model() == self.chain_model(),
    {
        proof {
            use_type_invariant(&*self);
        }
        let mut chain: Vec<Vec<u8>> = Vec::new();
        let mut i: usize = 0;
        while i < self.chain.len()
            invariant
                i <= self.chain@.len(),
                chain@.len() == i,
                forall|j: int| 0 <= j < i ==> chain@[j]@ == self.chain@[j]@,
            decreases self.chain.len() - i,
        {
            chain.push(copy_bytes(&self.chain[i]));
            i = i + 1;
        }
        let key_der = copy_bytes(&self.key_der);
        proof {
            assert(chain@.map_values(|c: Vec<u8>| c@) =~= self.chain@.map_values(
                |c: Vec<u8>| c@,
            ));
            assert(chain@[0]@ == self.chain@[0]@);
        }
        let r = CertResolver {
            chain,
            key_der,
            anchors: Ghost(self.anchors@),
            checked_at: Ghost(self.checked_at@),
        };
        r
    }
}

} // verus!
