//! Glob-style host pattern matching.
//!
//! A host pattern is matched against a whole hostname: `*` matches any run
//! of characters (possibly empty), `?` matches any single character, and
//! every other character matches only itself.  A pattern prefixed with `!`
//! is a negation: if its remainder matches the hostname, the entry is
//! excluded no matter which other patterns match.

use vstd::prelude::*;

verus! {

/// Does glob pattern `p` match the whole string `s`?
pub open spec fn glob_matches(p: Seq<char>, s: Seq<char>) -> bool
    decreases p.len() + s.len(),
{
    if p.len() == 0 {
        s.len() == 0
    } else if p[0] == '*' {
        glob_matches(p.skip(1), s) || (s.len() > 0 && glob_matches(p, s.skip(1)))
    } else {
        s.len() > 0 && (p[0] == '?' || p[0] == s[0]) && glob_matches(p.skip(1), s.skip(1))
    }
}

/// Is `p` a negated pattern (written with a leading `!`)?
pub open spec fn pattern_negated(p: Seq<char>) -> bool {
    p.len() > 0 && p[0] == '!'
}

/// A pattern list matches a hostname when some positive pattern matches it
/// and no negated pattern does: negation wins regardless of its position
/// in the list.
pub open spec fn pattern_list_matches(ps: Seq<Seq<char>>, s: Seq<char>) -> bool {
    (exists|k: int|
        0 <= k < ps.len() && !pattern_negated(ps[k]) && glob_matches(ps[k], s))
        && (forall|k: int|
        0 <= k < ps.len() && pattern_negated(ps[k]) ==> !glob_matches(ps[k].skip(1), s))
}

/// The views of a list of pattern strings.
pub open spec fn patterns_view(ps: Seq<String>) -> Seq<Seq<char>> {
    ps.map(|k: int, p: String| p@)
}

/// A pattern containing no `*` matches itself: a `?` matches its own
/// character, and every other character matches only itself.
pub proof fn lemma_literal_glob_self(h: Seq<char>)
    requires
        forall|k: int| 0 <= k < h.len() ==> h[k] != '*',
    ensures
        glob_matches(h, h),
    decreases h.len(),
{
    if h.len() > 0 {
        assert(forall|k: int| 0 <= k < h.skip(1).len() ==> h.skip(1)[k] != '*');
        lemma_literal_glob_self(h.skip(1));
    }
}

/// Match glob pattern `p` (from character `i` on) against string `s`
/// (from character `j` on).
fn glob_match_from(p: &str, s: &str, i: usize, j: usize) -> (r: bool)
    requires
        i <= p@.len(),
        j <= s@.len(),
    ensures
        r == glob_matches(p@.skip(i as int), s@.skip(j as int)),
    decreases p@.len() - i + s@.len() - j,
{
    let pn = p.unicode_len();
    let sn = s.unicode_len();
    if i == pn {
        j == sn
    } else if p.get_char(i) == '*' {
        proof {
            assert(p@.skip(i as int).skip(1) =~= p@.skip(i + 1));
        }
        if glob_match_from(p, s, i + 1, j) {
            true
        } else if j < sn {
            proof {
                assert(s@.skip(j as int).skip(1) =~= s@.skip(j + 1));
            }
            glob_match_from(p, s, i, j + 1)
        } else {
            false
        }
    } else {
        proof {
            assert(p@.skip(i as int).skip(1) =~= p@.skip(i + 1));
        }
        if j < sn && (p.get_char(i) == '?' || p.get_char(i) == s.get_char(j)) {
            proof {
                assert(s@.skip(j as int).skip(1) =~= s@.skip(j + 1));
            }
            glob_match_from(p, s, i + 1, j + 1)
        } else {
            false
        }
    }
}

/// Does glob pattern `p` match the whole of `s`?
pub fn glob_match(p: &str, s: &str) -> (r: bool)
    ensures
        r == glob_matches(p@, s@),
{
    let r = glob_match_from(p, s, 0, 0);
    proof {
        assert(p@.skip(0) =~= p@);
        assert(s@.skip(0) =~= s@);
    }
    r
}

/// Evaluate a host pattern list against a hostname: some positive pattern
/// must match, and no negated pattern may match.
pub fn host_patterns_match(patterns: &Vec<String>, name: &str) -> (r: bool)
    ensures
        r == pattern_list_matches(patterns_view(patterns@), name@),
{
    let ghost ps = patterns_view(patterns@);
    let mut found: bool = false;
    let mut idx: usize = 0;
    while idx < patterns.len()
        invariant
            idx <= patterns@.len(),
            ps == patterns_view(patterns@),
            found == exists|k: int|
                0 <= k < idx && !pattern_negated(ps[k]) && glob_matches(ps[k], name@),
            forall|k: int|
                0 <= k < idx && pattern_negated(ps[k]) ==> !glob_matches(ps[k].skip(1), name@),
        decreases patterns@.len() - idx,
    {
        let p: &str = patterns[idx].as_str();
        let pn = p.unicode_len();
        if pn > 0 && p.get_char(0) == '!' {
            proof {
                assert(p@.skip(1) =~= ps[idx as int].skip(1));
                assert(name@.skip(0) =~= name@);
            }
            if glob_match_from(p, name, 1, 0) {
                return false;
            }
        } else {
            if glob_match(p, name) {
                found = true;
                proof {
                    assert(!pattern_negated(ps[idx as int]) && glob_matches(
                        ps[idx as int],
                        name@,
                    ));
                }
            }
        }
        idx += 1;
    }
    found
}

} // verus!
