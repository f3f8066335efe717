//! The identity resolution engine.
//!
//! The engine walks an ordered collection of trust sources, applies the
//! entry matcher to every entry of every readable source, and aggregates
//! the matching public keys, in source-then-entry order and without
//! deduplication, into a [`Peer`].  An unreadable or unparsable source is
//! skipped with a recorded warning; resolution fails only when no source
//! at all could be read.

use vstd::prelude::*;
use crate::entry::{AuthorizedEntry, HostToken, IdentityEntry, PublicKey, TrustEntry};
use crate::pattern::{
    glob_matches, lemma_literal_glob_self, pattern_list_matches, pattern_negated, patterns_view,
};

verus! {

/// One trust source, as handed to the engine: either its decoded entries,
/// or the reason it yielded none.
#[derive(Clone, Debug, PartialEq, Eq)]
pub enum TrustSource<E> {
    /// The source was read and decoded into its entries.
    Entries(Vec<E>),
    /// The source could not be opened or read.
    Unreadable,
    /// The source was read but could not be decoded.
    Unparsable,
}

/// A recorded per-source warning; the index names the failing source's
/// position in the collection handed to the engine.
#[derive(Clone, Copy, Debug, PartialEq, Eq, Structural)]
pub enum SourceWarning {
    SourceUnreadable(usize),
    SourceUnparsable(usize),
}

/// The one fatal resolution failure: not a single source could be read,
/// so the result would carry no information at all.
#[derive(Clone, Copy, Debug, PartialEq, Eq, Structural)]
pub enum ResolutionError {
    NoSourcesAvailable,
}

/// A peer identified primarily by its public-key identities.
#[derive(Debug, PartialEq, Eq)]
pub struct Peer {
    /// The hostname the caller searched for, or absent when resolution
    /// was by comment.
    pub name: Option<String>,
    /// The matched public keys, in source-then-entry scan order,
    /// duplicates retained.  Empty means the peer is unknown; that is a
    /// valid outcome, not an error.
    pub identities: Vec<PublicKey>,
}

/// A successful resolution: the peer, together with the per-source
/// warnings recorded while scanning.
#[derive(Debug, PartialEq, Eq)]
pub struct Resolution {
    pub peer: Peer,
    pub warnings: Vec<SourceWarning>,
}

/// The views of a sequence of public keys.
pub open spec fn keys_view(ks: Seq<PublicKey>) -> Seq<(Seq<char>, Seq<u8>)> {
    ks.map(|k: int, p: PublicKey| p@)
}

/// The key an entry contributes for query `q`: its own key on a match,
/// nothing otherwise.
pub open spec fn entry_key_seq<E: IdentityEntry>(e: E, q: &str) -> Seq<(Seq<char>, Seq<u8>)> {
    if e.spec_matches(q) {
        seq![e.spec_key()]
    } else {
        Seq::empty()
    }
}

/// The keys a sequence of entries contributes for query `q`, in entry
/// order.
pub open spec fn entries_key_seq<E: IdentityEntry>(es: Seq<E>, q: &str) -> Seq<
    (Seq<char>, Seq<u8>),
>
    decreases es.len(),
{
    if es.len() == 0 {
        Seq::empty()
    } else {
        entries_key_seq(es.drop_last(), q) + entry_key_seq(es.last(), q)
    }
}

/// The keys one source contributes for query `q`: those of its entries
/// when readable, none otherwise.
pub open spec fn source_key_seq<E: IdentityEntry>(s: TrustSource<E>, q: &str) -> Seq<
    (Seq<char>, Seq<u8>),
> {
    match s {
        TrustSource::Entries(es) => entries_key_seq(es@, q),
        TrustSource::Unreadable => Seq::empty(),
        TrustSource::Unparsable => Seq::empty(),
    }
}

/// The keys a sequence of sources contributes for query `q`, in
/// source-then-entry order.
pub open spec fn sources_key_seq<E: IdentityEntry>(ss: Seq<TrustSource<E>>, q: &str) -> Seq<
    (Seq<char>, Seq<u8>),
>
    decreases ss.len(),
{
    if ss.len() == 0 {
        Seq::empty()
    } else {
        sources_key_seq(ss.drop_last(), q) + source_key_seq(ss.last(), q)
    }
}

/// The warning one source records under index `idx`.
pub open spec fn source_warning_seq<E>(s: TrustSource<E>, idx: usize) -> Seq<SourceWarning> {
    match s {
        TrustSource::Entries(_) => Seq::empty(),
        TrustSource::Unreadable => seq![SourceWarning::SourceUnreadable(idx)],
        TrustSource::Unparsable => seq![SourceWarning::SourceUnparsable(idx)],
    }
}

/// The warnings a sequence of sources records, in source order.
pub open spec fn warnings_seq<E>(ss: Seq<TrustSource<E>>) -> Seq<SourceWarning>
    decreases ss.len(),
{
    if ss.len() == 0 {
        Seq::empty()
    } else {
        warnings_seq(ss.drop_last()) + source_warning_seq(ss.last(), (ss.len() - 1) as usize)
    }
}

/// Is at least one source readable?
pub open spec fn any_readable<E>(ss: Seq<TrustSource<E>>) -> bool {
    exists|k: int| 0 <= k < ss.len() && ss[k] is Entries
}

/// Walk every entry of every readable source, collect the matching keys
/// in scan order, and record a warning for every skipped source.  Fails
/// only when no source at all was readable.
fn resolve_sources<E: IdentityEntry>(sources: &Vec<TrustSource<E>>, query: &str) -> (r: Result<
    (Vec<PublicKey>, Vec<SourceWarning>),
    ResolutionError,
>)
    ensures
        r is Ok <==> any_readable(sources@),
        r matches Ok(okr) ==> keys_view(okr.0@) == sources_key_seq(sources@, query)
            && okr.1@ == warnings_seq(sources@),
        r matches Err(e) ==> e == ResolutionError::NoSourcesAvailable,
{
    let mut identities: Vec<PublicKey> = Vec::new();
    let mut warnings: Vec<SourceWarning> = Vec::new();
    let mut readable: bool = false;
    let mut i: usize = 0;
    while i < sources.len()
        invariant
            i <= sources@.len(),
            readable == any_readable(sources@.take(i as int)),
            keys_view(identities@) == sources_key_seq(sources@.take(i as int), query),
            warnings@ == warnings_seq(sources@.take(i as int)),
        decreases sources@.len() - i,
    {
        proof {
            assert(sources@.take(i + 1).drop_last() =~= sources@.take(i as int));
            assert(sources@.take(i + 1).last() == sources@[i as int]);
        }
        match &sources[i] {
            TrustSource::Entries(es) => {
                readable = true;
                let mut j: usize = 0;
                while j < es.len()
                    invariant
                        i < sources@.len(),
                        j <= es@.len(),
                        sources@[i as int] == TrustSource::Entries(*es),
                        keys_view(identities@) == sources_key_seq(
                            sources@.take(i as int),
                            query,
                        ) + entries_key_seq(es@.take(j as int), query),
                        warnings@ == warnings_seq(sources@.take(i as int)),
                    decreases es@.len() - j,
                {
                    proof {
                        assert(es@.take(j + 1).drop_last() =~= es@.take(j as int));
                        assert(es@.take(j + 1).last() == es@[j as int]);
                    }
                    match es[j].match_name(query) {
                        Some(key) => {
                            proof {
                                assert(keys_view(identities@.push(key)) =~= keys_view(
                                    identities@,
                                ).push(key@));
                            }
                            identities.push(key);
                        },
                        None => {},
                    }
                    j += 1;
                }
                proof {
                    assert(es@.take(es@.len() as int) =~= es@);
                }
            },
            TrustSource::Unreadable => {
                warnings.push(SourceWarning::SourceUnreadable(i));
            },
            TrustSource::Unparsable => {
                warnings.push(SourceWarning::SourceUnparsable(i));
            },
        }
        i += 1;
    }
    proof {
        assert(sources@.take(sources@.len() as int) =~= sources@);
    }
    if readable {
        Ok((identities, warnings))
    } else {
        Err(ResolutionError::NoSourcesAvailable)
    }
}

impl Peer {
    /// Find a peer description by its hostname in the given
    /// `known_hosts`-style sources.  Matching keys are aggregated in
    /// source-then-entry order, duplicates retained; a failed source is
    /// skipped with a recorded warning; the call fails only when not one
    /// source was readable.
    pub fn search_known_hosts(sources: &Vec<TrustSource<TrustEntry>>, hostname: &str) -> (r:
        Result<Resolution, ResolutionError>)
        ensures
            r is Ok <==> any_readable(sources@),
            r matches Ok(res) ==> {
                &&& res.peer.name matches Some(n) && n@ == hostname@
                &&& keys_view(res.peer.identities@) == sources_key_seq(sources@, hostname)
                &&& res.warnings@ == warnings_seq(sources@)
            },
            r matches Err(e) ==> e == ResolutionError::NoSourcesAvailable,
    {
        match resolve_sources(sources, hostname) {
            Ok(collected) => {
                let (identities, warnings) = collected;
                Ok(
                    Resolution {
                        peer: Peer { name: Some(hostname.to_owned()), identities },
                        warnings,
                    },
                )
            },
            Err(e) => Err(e),
        }
    }

    /// Find a peer description by its key comment in the given
    /// `authorized_keys`-style sources.  Matching is exact string
    /// equality on the comment; the skip-and-warn and empty-is-success
    /// policies are those of hostname resolution.
    pub fn search_authorized_keys(sources: &Vec<TrustSource<AuthorizedEntry>>, comment: &str) -> (r:
        Result<Resolution, ResolutionError>)
        ensures
            r is Ok <==> any_readable(sources@),
            r matches Ok(res) ==> {
                &&& res.peer.name is None
                &&& keys_view(res.peer.identities@) == sources_key_seq(sources@, comment)
                &&& res.warnings@ == warnings_seq(sources@)
            },
            r matches Err(e) ==> e == ResolutionError::NoSourcesAvailable,
    {
        match resolve_sources(sources, comment) {
            Ok(collected) => {
                let (identities, warnings) = collected;
                Ok(Resolution { peer: Peer { name: None, identities }, warnings })
            },
            Err(e) => Err(e),
        }
    }
}

/// A single-entry source whose unmarked entry lists the queried hostname
/// itself as its one host pattern resolves to exactly that entry's key.
/// The hostname must hold no `*` wildcard and must not begin with the
/// `!` negation prefix, else it would not be a literal pattern.
pub proof fn lemma_own_name_yields_key(
    sources: Seq<TrustSource<TrustEntry>>,
    entries: Vec<TrustEntry>,
    e: TrustEntry,
    patterns: Vec<String>,
    pattern: String,
    h: &str,
)
    requires
        sources =~= seq![TrustSource::Entries(entries)],
        entries@ =~= seq![e],
        e.marker is None,
        e.host_token == HostToken::PatternList(patterns),
        pattern@ == h@,
        patterns@ =~= seq![pattern],
        forall|k: int| 0 <= k < h@.len() ==> h@[k] != '*',
        h@.len() > 0 ==> h@[0] != '!',
    ensures
        sources_key_seq(sources, h) =~= seq![e.public_key@],
{
    lemma_literal_glob_self(h@);
    let ps = patterns_view(patterns@);
    assert(ps =~= seq![h@]);
    assert(!pattern_negated(ps[0]) && glob_matches(ps[0], h@));
    assert(pattern_list_matches(ps, h@));
    assert(e.spec_matches(h));
    assert(entry_key_seq(e, h) =~= seq![e.public_key@]);
    assert(entries@.len() == 1);
    assert(entries@.last() == e);
    assert(entries@.drop_last() =~= Seq::<TrustEntry>::empty());
    assert(entries_key_seq(entries@.drop_last(), h) =~= Seq::<(Seq<char>, Seq<u8>)>::empty());
    assert(entries_key_seq(entries@, h) =~= seq![e.public_key@]);
    assert(sources.len() == 1);
    assert(sources.last() == TrustSource::Entries(entries));
    assert(sources.drop_last() =~= Seq::<TrustSource<TrustEntry>>::empty());
    assert(sources_key_seq(sources.drop_last(), h) =~= Seq::<(Seq<char>, Seq<u8>)>::empty());
}

/// Resolution is deterministic: two resolved identity sequences for the
/// same sources and the same query are identical, in order and content.
pub proof fn lemma_resolution_idempotent<E: IdentityEntry>(
    p1: Peer,
    p2: Peer,
    sources: Seq<TrustSource<E>>,
    query: &str,
)
    requires
        keys_view(p1.identities@) == sources_key_seq(sources, query),
        keys_view(p2.identities@) == sources_key_seq(sources, query),
    ensures
        keys_view(p1.identities@) == keys_view(p2.identities@),
{
}

} // verus!
