//! The transport gate: the checks that run before any protocol decoding.
//!
//! The inbox shares its URL namespace with non-federation endpoints, so
//! requests that cannot structurally be federation traffic (wrong method,
//! content type not `application/...`) are filtered out first.  The body
//! content digest is then checked against the body bytes: a mismatch is a
//! hard authentication reject, defending against tampering between
//! signing and processing.

use crate::FederationError;
use sha2::Digest;
use vstd::prelude::*;

verus! {

/// The SHA-256 digest of a byte sequence.
pub uninterp spec fn sha256_of(bytes: Seq<u8>) -> Seq<u8>;

/// Relies on sha2::Sha256 through the Digest trait: the digest is a
/// function of the input bytes alone, and SHA-256 output is 32 bytes.
#[verifier::external_body]
pub(crate) fn sha256(bytes: &Vec<u8>) -> (r: Vec<u8>)
    ensures
        r@ == sha256_of(bytes@),
        r@.len() == 32,
{
    sha2::Sha256::digest(bytes.as_slice()).to_vec()
}

/// Byte-for-byte equality of two buffers.
pub fn bytes_eq(a: &Vec<u8>, b: &Vec<u8>) -> (r: bool)
    ensures
        r == (a@ == b@),
{
    if a.len() != b.len() {
        return false;
    }
    let n = a.len();
    let mut i: usize = 0;
    while i < n
        invariant
            n == a@.len(),
            n == b@.len(),
            i <= n,
            forall|j: int| 0 <= j < i ==> a@[j] == b@[j],
        decreases n - i,
    {
        if a[i] != b[i] {
            return false;
        }
        i = i + 1;
    }
    proof {
        assert(a@ =~= b@);
    }
    true
}

/// The bytes of `application/`.
pub open spec fn application_prefix() -> Seq<u8> {
    seq![97u8, 112u8, 112u8, 108u8, 105u8, 99u8, 97u8, 116u8, 105u8, 111u8, 110u8, 47u8]
}

/// Whether a content type begins with `application/`.
pub open spec fn starts_with_application(ct: Seq<u8>) -> bool {
    ct.len() >= 12 && ct.subrange(0, 12) == application_prefix()
}

/// Whether a request can structurally be federation traffic: a POST whose
/// content type begins with `application/`.
pub open spec fn spec_guard(method_post: bool, content_type: Option<Vec<u8>>) -> bool {
    method_post && match content_type {
        Some(v) => starts_with_application(v@),
        None => false,
    }
}

/// Filters out requests that definitely cannot be inbox requests, so
/// webfinger, feeds and the like keep working on the shared namespace.
pub struct InboxRequestGuard;

impl InboxRequestGuard {
    /// The guard: accepts exactly the requests `spec_guard` accepts.
    pub fn check(method_post: bool, content_type: &Option<Vec<u8>>) -> (r: bool)
        ensures
            r == spec_guard(method_post, *content_type),
    {
        if !method_post {
            return false;
        }
        let ct = match content_type {
            Some(v) => v,
            None => {
                return false;
            },
        };
        if ct.len() < 12 {
            return false;
        }
        let prefix: Vec<u8> = vec![97u8, 112u8, 112u8, 108u8, 105u8, 99u8, 97u8, 116u8, 105u8, 111u8, 110u8, 47u8];
        proof {
            assert(prefix@ =~= application_prefix());
        }
        let mut i: usize = 0;
        while i < 12
            invariant
                method_post,
                *content_type == Some(*ct),
                ct@.len() >= 12,
                prefix@ == application_prefix(),
                prefix@.len() == 12,
                i <= 12,
                forall|j: int| 0 <= j < i ==> ct@[j] == prefix@[j],
            decreases 12 - i,
        {
            if ct[i] != prefix[i] {
                proof {
                    assert(ct@.subrange(0, 12)[i as int] == ct@[i as int]);
                    if starts_with_application(ct@) {
                        assert(ct@.subrange(0, 12) == application_prefix());
                        assert(ct@.subrange(0, 12)[i as int] == application_prefix()[i as int]);
                        assert(false);
                    }
                }
                return false;
            }
            i = i + 1;
        }
        proof {
            assert(ct@.subrange(0, 12) =~= application_prefix());
        }
        true
    }
}

/// Verifies the body content digest: the request is authentic only if the
/// digest header equals the SHA-256 of the body bytes; a mismatch is a
/// hard reject.
pub fn verify_digest(digest: &Vec<u8>, body: &Vec<u8>) -> (r: Result<(), FederationError>)
    ensures
        r is Ok <==> digest@ == sha256_of(body@),
        r is Err ==> r->Err_0 == FederationError::AuthenticationFailure,
{
    let d = sha256(body);
    if bytes_eq(digest, &d) {
        Ok(())
    } else {
        Err(FederationError::AuthenticationFailure)
    }
}

} // verus!
