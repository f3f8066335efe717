//! Trust-file entries and the entry matcher.
//!
//! A trust-file entry carries an optional marker, a host token (a glob
//! pattern list or a salted-hash token) and one public key.  The entry
//! matcher decides, purely from the entry and a query string, whether the
//! entry's key is to be trusted for that query.

use vstd::prelude::*;
use crate::hashing::{hashed_token_matches, HashedToken};
use crate::pattern::{host_patterns_match, pattern_list_matches, patterns_view};

verus! {

/// A public key: its algorithm tag (such as `ssh-ed25519`) and its raw
/// key material.
#[derive(Debug, PartialEq, Eq)]
pub struct PublicKey {
    pub algorithm: String,
    pub key_data: Vec<u8>,
}

impl View for PublicKey {
    type V = (Seq<char>, Seq<u8>);

    open spec fn view(&self) -> (Seq<char>, Seq<u8>) {
        (self.algorithm@, self.key_data@)
    }
}

impl Clone for PublicKey {
    fn clone(&self) -> (r: Self)
        ensures
            r@ == self@,
    {
        PublicKey {
            algorithm: self.algorithm.clone(),
            key_data: vstd::slice::slice_to_vec(self.key_data.as_slice()),
        }
    }
}

/// A marker annotating a trust-file entry, altering its trust semantics.
/// No marker kind grants a direct host match: a certificate-authority key
/// is not a host key, and a revoked key must never be trusted, so the
/// matcher conservatively excludes every marked entry.
#[derive(Clone, Copy, Debug, PartialEq, Eq, Structural)]
pub enum Marker {
    /// The entry's key belongs to a certificate authority.
    CertAuthority,
    /// The entry's key has been revoked.
    Revoked,
}

/// The host token of an entry: either an ordered list of glob-style host
/// patterns, or a salted-hash stand-in for a single hostname.
#[derive(Clone, Debug, PartialEq, Eq)]
pub enum HostToken {
    PatternList(Vec<String>),
    Hashed(HashedToken),
}

/// One entry of a `known_hosts`-style trust file.
#[derive(Clone, Debug, PartialEq, Eq)]
pub struct TrustEntry {
    pub marker: Option<Marker>,
    pub host_token: HostToken,
    pub public_key: PublicKey,
}

/// One entry of an `authorized_keys`-style trust file: a key under a
/// free-text comment.
#[derive(Clone, Debug, PartialEq, Eq)]
pub struct AuthorizedEntry {
    pub comment: String,
    pub public_key: PublicKey,
}

/// Does the host token `t` match the hostname `q`?
pub open spec fn host_token_matches(t: HostToken, q: &str) -> bool {
    match t {
        HostToken::PatternList(ps) => pattern_list_matches(patterns_view(ps@), q@),
        HostToken::Hashed(h) => hashed_token_matches(h, q),
    }
}

/// Does the trust entry `e` match the hostname `q`?  An entry carrying
/// any marker never matches: an unsupported marker must not contribute a
/// key, whatever its host token says.
pub open spec fn trust_entry_matches(e: TrustEntry, q: &str) -> bool {
    e.marker is None && host_token_matches(e.host_token, q)
}

/// Does the authorized-keys entry `e` match the comment `q`?  Matching is
/// exact string equality.
pub open spec fn authorized_entry_matches(e: AuthorizedEntry, q: &str) -> bool {
    e.comment@ == q@
}

/// An entry of a trust file, matched against a query string.
pub trait IdentityEntry: Sized {
    /// Does this entry match the query?
    spec fn spec_matches(&self, query: &str) -> bool;

    /// The key this entry yields on a match.
    spec fn spec_key(&self) -> (Seq<char>, Seq<u8>);

    /// If the name in the argument matches this entry, return its public
    /// key.
    fn match_name(&self, name: &str) -> (r: Option<PublicKey>)
        ensures
            r is Some <==> self.spec_matches(name),
            r matches Some(k) ==> k@ == self.spec_key(),
    ;
}

impl IdentityEntry for TrustEntry {
    open spec fn spec_matches(&self, query: &str) -> bool {
        trust_entry_matches(*self, query)
    }

    open spec fn spec_key(&self) -> (Seq<char>, Seq<u8>) {
        self.public_key@
    }

    fn match_name(&self, name: &str) -> (r: Option<PublicKey>) {
        match (&self.marker, &self.host_token) {
            (None, HostToken::PatternList(patterns)) => {
                if host_patterns_match(patterns, name) {
                    Some(self.public_key.clone())
                } else {
                    None
                }
            },
            (None, HostToken::Hashed(token)) => {
                if token.matches_hash(name) {
                    Some(self.public_key.clone())
                } else {
                    None
                }
            },
            _ => None,
        }
    }
}

impl IdentityEntry for AuthorizedEntry {
    open spec fn spec_matches(&self, query: &str) -> bool {
        authorized_entry_matches(*self, query)
    }

    open spec fn spec_key(&self) -> (Seq<char>, Seq<u8>) {
        self.public_key@
    }

    fn match_name(&self, name: &str) -> (r: Option<PublicKey>) {
        if str_eq(self.comment.as_str(), name) {
            Some(self.public_key.clone())
        } else {
            None
        }
    }
}

/// Are two strings equal, character for character?
fn str_eq(a: &str, b: &str) -> (r: bool)
    ensures
        r == (a@ == b@),
{
    let an = a.unicode_len();
    let bn = b.unicode_len();
    if an != bn {
        return false;
    }
    let mut i: usize = 0;
    while i < an
        invariant
            a@.len() == an,
            b@.len() == bn,
            an == bn,
            i <= an,
            forall|k: int| 0 <= k < i ==> a@[k] == b@[k],
        decreases an - i,
    {
        if a.get_char(i) != b.get_char(i) {
            return false;
        }
        i += 1;
    }
    proof {
        assert(a@ =~= b@);
    }
    true
}

/// No marked entry ever matches: whatever its host token, an entry whose
/// marker is present contributes no key.
pub proof fn lemma_marker_excludes(e: TrustEntry, q: &str)
    requires
        e.marker is Some,
    ensures
        !trust_entry_matches(e, q),
{
}

} // verus!
