//! Resolution of a network peer's trusted public-key identities from
//! `known_hosts`- and `authorized_keys`-style trust sources.
//!
//! The core is the identity resolution engine: it walks the entries of a
//! set of trust sources, decides whether each entry's host pattern (or
//! salted-hash host token) matches a queried hostname, and aggregates the
//! matching public keys into a [`resolve::Peer`].

pub mod entry;
pub mod hashing;
pub mod pattern;
pub mod resolve;

pub use entry::{AuthorizedEntry, HostToken, IdentityEntry, Marker, PublicKey, TrustEntry};
pub use hashing::{HashAlgorithm, HashedToken};
pub use resolve::{Peer, Resolution, ResolutionError, SourceWarning, TrustSource};
