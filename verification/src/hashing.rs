//! Salted-hash host tokens and their matching.
//!
//! A hashed host token stores a hostname as `{ hash_algorithm, salt,
//! digest }` instead of cleartext.  Matching recomputes the keyed digest
//! of the queried hostname with the token's own salt and compares it to
//! the stored digest in constant time.  A token whose hash algorithm is
//! not supported never matches; that is a deliberate, conservative
//! non-match, not an error.

use vstd::prelude::*;
use vstd::string::StringSliceAdditionalSpecFns;
use hmac::Mac;

verus! {

/// The hash algorithm of a hashed host token.
#[derive(Clone, Copy, Debug, PartialEq, Eq, Structural)]
pub enum HashAlgorithm {
    /// HMAC over SHA-1 keyed with the token's salt: the conventional
    /// scheme of hashed `known_hosts` entries.
    HmacSha1,
    /// Any other scheme.  An unsupported algorithm yields a definite
    /// non-match, never an error.
    Unsupported,
}

/// A salted-hash host token: an opaque stand-in for a hostname.
#[derive(Clone, Debug, PartialEq, Eq)]
pub struct HashedToken {
    pub algorithm: HashAlgorithm,
    pub salt: Vec<u8>,
    pub digest: Vec<u8>,
}

/// The HMAC-SHA-1 digest of `msg` keyed with `key`: a function of its two
/// arguments alone.
pub uninterp spec fn hmac_sha1_of(key: Seq<u8>, msg: Seq<u8>) -> Seq<u8>;

/// Relies on `hmac::Hmac<sha1::Sha1>` (RustCrypto's HMAC over SHA-1): the
/// keyed digest depends on the key and message bytes alone, and
/// `Mac::new_from_slice` accepts keys of any length for HMAC, so it never
/// fails here.
#[verifier::external_body]
fn hmac_sha1(key: &[u8], msg: &[u8]) -> (r: Vec<u8>)
    ensures
        r@ == hmac_sha1_of(key@, msg@),
{
    let mut mac = <hmac::Hmac<sha1::Sha1> as hmac::KeyInit>::new_from_slice(key)
        .expect("HMAC accepts keys of any length");
    mac.update(msg);
    mac.finalize().into_bytes().as_slice().to_vec()
}

/// Byte-for-byte equality through a bitwise accumulator rather than an
/// early exit, so the time taken does not depend on where the first
/// difference lies.
pub fn ct_bytes_eq(a: &[u8], b: &[u8]) -> (r: bool)
    ensures
        r == (a@ == b@),
{
    if a.len() != b.len() {
        return false;
    }
    let mut acc: u8 = 0;
    let mut i: usize = 0;
    while i < a.len()
        invariant
            a@.len() == b@.len(),
            i <= a@.len(),
            (acc == 0) <==> (forall|k: int| 0 <= k < i ==> a@[k] == b@[k]),
        decreases a@.len() - i,
    {
        let ai = a[i];
        let bi = b[i];
        let d = ai ^ bi;
        proof {
            assert(((ai ^ bi) == 0) == (ai == bi)) by (bit_vector);
            assert((((acc | d) == 0)) == ((acc == 0) && (d == 0))) by (bit_vector);
        }
        acc = acc | d;
        i += 1;
    }
    proof {
        if acc == 0 {
            assert(a@ =~= b@);
        }
    }
    acc == 0
}

/// Does hashed token `t` stand for the hostname `q`?
pub open spec fn hashed_token_matches(t: HashedToken, q: &str) -> bool {
    t.algorithm is HmacSha1 && t.digest@ == hmac_sha1_of(t.salt@, q.spec_bytes())
}

impl HashedToken {
    /// Recompute the keyed digest of `name` with this token's own salt and
    /// algorithm and compare it, in constant time, to the stored digest.
    pub fn matches_hash(&self, name: &str) -> (r: bool)
        ensures
            r == hashed_token_matches(*self, name),
    {
        match self.algorithm {
            HashAlgorithm::HmacSha1 => {
                let d = hmac_sha1(self.salt.as_slice(), name.as_bytes());
                ct_bytes_eq(self.digest.as_slice(), d.as_slice())
            },
            HashAlgorithm::Unsupported => false,
        }
    }
}

} // verus!
