use peer_discovery::{
    AuthorizedEntry, HashAlgorithm, HashedToken, HostToken, Marker, Peer, PublicKey,
    ResolutionError, SourceWarning, TrustEntry, TrustSource,
};

use hmac::{KeyInit, Mac};

fn hmac_digest(salt: &[u8], msg: &[u8]) -> Vec<u8> {
    let mut mac = <hmac::Hmac<sha1::Sha1> as KeyInit>::new_from_slice(salt).unwrap();
    mac.update(msg);
    mac.finalize().into_bytes().as_slice().to_vec()
}

fn key(tag: &str, data: &[u8]) -> PublicKey {
    PublicKey {
        algorithm: tag.to_string(),
        key_data: data.to_vec(),
    }
}

fn pattern_entry(patterns: &[&str], k: PublicKey) -> TrustEntry {
    TrustEntry {
        marker: None,
        host_token: HostToken::PatternList(patterns.iter().map(|p| p.to_string()).collect()),
        public_key: k,
    }
}

#[test]
fn own_hostname_yields_exactly_that_key() {
    let k = key("ssh-ed25519", b"keydata-1");
    let sources = vec![TrustSource::Entries(vec![pattern_entry(&["example.com"], k.clone())])];
    let res = Peer::search_known_hosts(&sources, "example.com").unwrap();
    assert_eq!(res.peer.name.as_deref(), Some("example.com"));
    assert_eq!(res.peer.identities, vec![k]);
    assert!(res.warnings.is_empty());
}

#[test]
fn negation_excludes_despite_wildcard() {
    let k = key("ssh-ed25519", b"keydata-1");
    let sources = vec![TrustSource::Entries(vec![pattern_entry(
        &["*.example.com", "!bad.example.com"],
        k.clone(),
    )])];
    let bad = Peer::search_known_hosts(&sources, "bad.example.com").unwrap();
    assert!(bad.peer.identities.is_empty());
    let good = Peer::search_known_hosts(&sources, "good.example.com").unwrap();
    assert_eq!(good.peer.identities, vec![k]);
}

#[test]
fn hashed_entry_resolves_by_recomputed_digest() {
    let salt = b"salt-for-this-entry".to_vec();
    let k = key("ssh-ed25519", b"keydata-1");
    let entry = TrustEntry {
        marker: None,
        host_token: HostToken::Hashed(HashedToken {
            algorithm: HashAlgorithm::HmacSha1,
            salt: salt.clone(),
            digest: hmac_digest(&salt, b"example.com"),
        }),
        public_key: k.clone(),
    };
    let sources = vec![TrustSource::Entries(vec![entry])];
    let hit = Peer::search_known_hosts(&sources, "example.com").unwrap();
    assert_eq!(hit.peer.identities, vec![k]);
    let miss = Peer::search_known_hosts(&sources, "example.org").unwrap();
    assert!(miss.peer.identities.is_empty());
}

#[test]
fn marked_entry_never_contributes_a_key() {
    let k = key("ssh-ed25519", b"keydata-1");
    for marker in [Marker::CertAuthority, Marker::Revoked] {
        let entry = TrustEntry {
            marker: Some(marker),
            host_token: HostToken::PatternList(vec!["example.com".to_string()]),
            public_key: k.clone(),
        };
        let sources = vec![TrustSource::Entries(vec![entry])];
        let res = Peer::search_known_hosts(&sources, "example.com").unwrap();
        assert!(res.peer.identities.is_empty());
    }
}

#[test]
fn zero_sources_is_no_sources_available() {
    let sources: Vec<TrustSource<TrustEntry>> = vec![];
    let res = Peer::search_known_hosts(&sources, "example.com");
    assert_eq!(res.unwrap_err(), ResolutionError::NoSourcesAvailable);
}

#[test]
fn all_sources_failed_is_no_sources_available() {
    let sources: Vec<TrustSource<TrustEntry>> =
        vec![TrustSource::Unreadable, TrustSource::Unparsable];
    let res = Peer::search_known_hosts(&sources, "example.com");
    assert_eq!(res.unwrap_err(), ResolutionError::NoSourcesAvailable);
}

#[test]
fn unreadable_source_is_skipped_with_warning() {
    let k = key("ssh-ed25519", b"keydata-1");
    let sources = vec![
        TrustSource::Unreadable,
        TrustSource::Entries(vec![pattern_entry(&["example.com"], k.clone())]),
    ];
    let res = Peer::search_known_hosts(&sources, "example.com").unwrap();
    assert_eq!(res.peer.identities, vec![k]);
    assert_eq!(res.warnings, vec![SourceWarning::SourceUnreadable(0)]);
}

#[test]
fn unparsable_source_is_skipped_with_warning() {
    let k = key("ssh-ed25519", b"keydata-1");
    let sources = vec![
        TrustSource::Entries(vec![pattern_entry(&["example.com"], k.clone())]),
        TrustSource::Unparsable,
    ];
    let res = Peer::search_known_hosts(&sources, "example.com").unwrap();
    assert_eq!(res.peer.identities, vec![k]);
    assert_eq!(res.warnings, vec![SourceWarning::SourceUnparsable(1)]);
}

#[test]
fn resolution_is_idempotent() {
    let k1 = key("ssh-ed25519", b"keydata-1");
    let k2 = key("ssh-rsa", b"keydata-2");
    let sources = vec![
        TrustSource::Entries(vec![
            pattern_entry(&["*.example.com"], k1),
            pattern_entry(&["sub.example.com"], k2),
        ]),
        TrustSource::Unreadable,
    ];
    let first = Peer::search_known_hosts(&sources, "sub.example.com").unwrap();
    let second = Peer::search_known_hosts(&sources, "sub.example.com").unwrap();
    assert_eq!(first.peer.identities, second.peer.identities);
    assert_eq!(first.warnings, second.warnings);
}

#[test]
fn end_to_end_negation_and_wildcard() {
    let k1 = key("ssh-ed25519", b"AAAA...1");
    let k2 = key("ssh-ed25519", b"AAAA...2");
    let sources = vec![TrustSource::Entries(vec![
        pattern_entry(&["example.com"], k1.clone()),
        pattern_entry(&["!example.com", "*.example.com"], k2.clone()),
    ])];
    let apex = Peer::search_known_hosts(&sources, "example.com").unwrap();
    assert_eq!(apex.peer.identities, vec![k1]);
    let sub = Peer::search_known_hosts(&sources, "sub.example.com").unwrap();
    assert_eq!(sub.peer.identities, vec![k2]);
}

#[test]
fn duplicates_are_retained_in_scan_order() {
    let k1 = key("ssh-ed25519", b"keydata-1");
    let k2 = key("ssh-ed25519", b"keydata-2");
    let sources = vec![
        TrustSource::Entries(vec![
            pattern_entry(&["example.com"], k1.clone()),
            pattern_entry(&["*"], k2.clone()),
        ]),
        TrustSource::Entries(vec![pattern_entry(&["example.*"], k1.clone())]),
    ];
    let res = Peer::search_known_hosts(&sources, "example.com").unwrap();
    assert_eq!(res.peer.identities, vec![k1.clone(), k2, k1]);
}

#[test]
fn empty_identities_is_success_not_error() {
    let k = key("ssh-ed25519", b"keydata-1");
    let sources = vec![TrustSource::Entries(vec![pattern_entry(&["other.host"], k)])];
    let res = Peer::search_known_hosts(&sources, "example.com").unwrap();
    assert!(res.peer.identities.is_empty());
    assert_eq!(res.peer.name.as_deref(), Some("example.com"));
}

#[test]
fn comment_search_is_exact_equality() {
    let k1 = key("ssh-ed25519", b"keydata-1");
    let k2 = key("ssh-ed25519", b"keydata-2");
    let sources = vec![TrustSource::Entries(vec![
        AuthorizedEntry {
            comment: "alice@laptop".to_string(),
            public_key: k1.clone(),
        },
        AuthorizedEntry {
            comment: "bob@desktop".to_string(),
            public_key: k2,
        },
    ])];
    let res = Peer::search_authorized_keys(&sources, "alice@laptop").unwrap();
    assert_eq!(res.peer.name, None);
    assert_eq!(res.peer.identities, vec![k1]);
    let miss = Peer::search_authorized_keys(&sources, "alice@lapto").unwrap();
    assert!(miss.peer.identities.is_empty());
}

#[test]
fn comment_search_zero_sources_fails() {
    let sources: Vec<TrustSource<AuthorizedEntry>> = vec![];
    let res = Peer::search_authorized_keys(&sources, "alice@laptop");
    assert_eq!(res.unwrap_err(), ResolutionError::NoSourcesAvailable);
}
