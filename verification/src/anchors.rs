//! The validated trust-anchor set.

use vstd::prelude::*;

use crate::errors::Error;
use crate::pem;
use crate::pki;

verus! {

/// First index whose certificate does not parse as a trust anchor, or the
/// certificate count when all parse.
pub open spec fn first_unparseable(certs: Seq<Seq<u8>>) -> nat
    decreases certs.len(),
{
    if certs.len() == 0 {
        0
    } else if !pki::anchor_parseable(certs[0]) {
        0
    } else {
        1 + first_unparseable(certs.skip(1))
    }
}

/// `first_unparseable` returns exactly the first failure.
pub proof fn lemma_first_unparseable_at(certs: Seq<Seq<u8>>, k: int)
    requires
        0 <= k <= certs.len(),
        forall|j: int| 0 <= j < k ==> pki::anchor_parseable(certs[j]),
        k < certs.len() ==> !pki::anchor_parseable(certs[k]),
    ensures
        first_unparseable(certs) == k,
    decreases certs.len(),
{
    if certs.len() == 0 {
    } else if !pki::anchor_parseable(certs[0]) {
    } else {
        assert(forall|j: int| 0 <= j < k - 1 ==> certs.skip(1)[j] == certs[j + 1]);
        assert(k - 1 < certs.skip(1).len() ==> certs.skip(1)[k - 1] == certs[k]);
        lemma_first_unparseable_at(certs.skip(1), k - 1);
    }
}

/// The outcome of reading the trust-anchors file: the parsed DER
/// certificates, each a valid anchor and at least one of them, or else the
/// error the attempt reports.
pub open spec fn anchors_outcome(pem_bytes: Seq<u8>) -> Result<Seq<Seq<u8>>, Error> {
    match pem::certificates(pem_bytes) {
        None => Err(Error::FailedToParseTrustAnchors(None)),
        Some(certs) => {
            if certs.len() == 0 {
                Err(Error::FailedToParseTrustAnchors(None))
            } else {
                let b = first_unparseable(certs);
                if b < certs.len() {
                    Err(Error::FailedToParseTrustAnchors(Some(b as usize)))
                } else {
                    Ok(certs)
                }
            }
        },
    }
}

/// An ordered nonempty list of certificates serving as issuers of last
/// resort. Every element parses as a trust anchor; this holds of every
/// value of the type.
pub struct TrustAnchors {
    ders: Vec<Vec<u8>>,
}

impl TrustAnchors {
    /// The DER bytes of each anchor certificate.
    pub closed spec fn model(self) -> Seq<Seq<u8>> {
        self.ders@.map_values(|d: Vec<u8>| d@)
    }

    /// Nonempty, and every certificate is a valid anchor.
    pub open spec fn consistent(self) -> bool {
        &&& self.model().len() > 0
        &&& forall|i: int| 0 <= i < self.model().len() ==> pki::anchor_parseable(self.model()[i])
    }

    #[verifier::type_invariant]
    spec fn inv(self) -> bool {
        self.consistent()
    }

    /// Number of anchors.
    pub fn len(&self) -> (n: usize)
        ensures
            n == self.model().len(),
    {
        self.ders.len()
    }

    /// Parse the trust-anchors file: a sequence of PEM `CERTIFICATE`
    /// blocks, each of which must be a valid trust anchor. An empty or
    /// unparseable file, or a certificate that is no valid anchor, fails
    /// with `FailedToParseTrustAnchors`.
    pub fn from_pem(bytes: &Vec<u8>) -> (r: Result<TrustAnchors, Error>)
        ensures
            match r {
                Ok(ta) => anchors_outcome(bytes@) == Result::<Seq<Seq<u8>>, Error>::Ok(ta.model()),
                Err(e) => anchors_outcome(bytes@) == Result::<Seq<Seq<u8>>, Error>::Err(e),
            },
    {
        let certs = match pem::parse_certificates(bytes) {
            Some(c) => c,
            None => {
                return Err(Error::FailedToParseTrustAnchors(None));
            },
        };
        if certs.len() == 0 {
            proof {
                assert(pem::views_of(certs@) =~= Seq::<Seq<u8>>::empty());
            }
            return Err(Error::FailedToParseTrustAnchors(None));
        }
        let ghost cv = pem::views_of(certs@);
        let mut i: usize = 0;
        while i < certs.len()
            invariant
                i <= certs@.len(),
                cv == pem::views_of(certs@),
                cv.len() == certs@.len(),
                cv.len() > 0,
                pem::certificates(bytes@) == Some(cv),
                forall|j: int| 0 <= j < i ==> pki::anchor_parseable(cv[j]),
            decreases certs.len() - i,
        {
            if !pki::anchor_ok(&certs[i]) {
                proof {
                    assert(cv[i as int] == certs@[i as int]@);
                    lemma_first_unparseable_at(cv, i as int);
                }
                return Err(Error::FailedToParseTrustAnchors(Some(i)));
            }
            i = i + 1;
        }
        proof {
            lemma_first_unparseable_at(cv, cv.len() as int);
        }
        Ok(TrustAnchors { ders: certs })
    }

    /// Whether at least one anchor accepts the end-entity certificate at
    /// the given time.
    pub fn accepts(&self, leaf_der: &Vec<u8>, now_secs: u64) -> (r: bool)
        ensures
            r == exists|i: int|
                0 <= i < self.model().len() && pki::anchor_accepts(
                    self.model()[i],
                    leaf_der@,
                    now_secs,
                ),
    {
        let mut i: usize = 0;
        while i < self.ders.len()
            invariant
                i <= self.ders@.len(),
                forall|j: int|
                    0 <= j < i ==> !pki::anchor_accepts(self.model()[j], leaf_der@, now_secs),
            decreases self.ders.len() - i,
        {
            if pki::leaf_valid_for_anchor(&self.ders[i], leaf_der, now_secs) {
                proof {
                    assert(pki::anchor_accepts(self.model()[i as int], leaf_der@, now_secs));
                }
                return true;
            }
            i = i + 1;
        }
        false
    }
}

} // verus!
