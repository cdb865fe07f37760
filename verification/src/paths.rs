//! The path sandbox: resolves a caller-supplied relative path against a
//! context root and enforces containment.
//!
//! Canonicalization (resolving symlinks and `..` on the real filesystem) is
//! the caller's concern; its outcome is passed in as a plain value, and every
//! decision taken from it is verified here. Escape detection runs on the
//! canonical form, so symlink-based escapes are caught, while the prefix
//! check compares against the uncanonicalized join of root and relative path.

use vstd::prelude::*;
use vstd::string::StrSliceExecFns;

use crate::error::Error;

verus! {

/// Whether a path string is absolute, that is, begins with a separator.
pub open spec fn spec_is_absolute(p: Seq<char>) -> bool {
    p.len() > 0 && p[0] == '/'
}

/// The textual join of a root path and a relative path.
pub open spec fn spec_join(root: Seq<char>, rel: Seq<char>) -> Seq<char> {
    root + seq!['/'] + rel
}

/// Whether `prefix` is a path-prefix of `whole`: a leading match that ends on
/// a component boundary.
pub open spec fn spec_path_prefix(prefix: Seq<char>, whole: Seq<char>) -> bool {
    &&& prefix.len() <= whole.len()
    &&& whole.subrange(0, prefix.len() as int) == prefix
    &&& (whole.len() == prefix.len() || whole[prefix.len() as int] == '/')
}

/// What resolving a relative path against a root comes to, given the
/// canonicalization outcome of their join (`None` when canonicalization
/// failed).
pub enum PathOutcome {
    /// The relative path was absolute and is rejected outright.
    Absolute,
    /// The joined path could not be canonicalized.
    NotCanonical,
    /// The canonical form left the sandbox.
    Escapes,
    /// The canonical absolute path, contained in the sandbox.
    Resolved(Seq<char>),
}

/// The view of an optional owned string.
pub open spec fn opt_str_view(o: Option<String>) -> Option<Seq<char>> {
    match o {
        Option::Some(s) => Option::Some(s@),
        Option::None => Option::None,
    }
}

/// The complete resolution rule: reject absolute paths, then require a
/// canonical form, then require the canonical form to keep the
/// uncanonicalized join as a path-prefix.
pub open spec fn resolve_outcome(
    root: Seq<char>,
    rel: Seq<char>,
    canon: Option<Seq<char>>,
) -> PathOutcome {
    if spec_is_absolute(rel) {
        PathOutcome::Absolute
    } else {
        match canon {
            Option::None => PathOutcome::NotCanonical,
            Option::Some(c) => if spec_path_prefix(spec_join(root, rel), c) {
                PathOutcome::Resolved(c)
            } else {
                PathOutcome::Escapes
            },
        }
    }
}

/// Decides whether a caller-supplied path is absolute.
pub fn is_absolute_path(p: &str) -> (r: bool)
    ensures
        r == spec_is_absolute(p@),
{
    if p.unicode_len() == 0 {
        false
    } else {
        p.get_char(0) == '/'
    }
}

/// Joins a relative path onto a root with a single separator.
pub fn join_paths(root: &str, rel: &str) -> (r: String)
    ensures
        r@ == spec_join(root@, rel@),
{
    proof {
        reveal_strlit("/");
    }
    let mut s = root.to_owned();
    s.append("/");
    s.append(rel);
    proof {
        assert(("/")@ =~= seq!['/']);
        assert(s@ =~= spec_join(root@, rel@));
    }
    s
}

/// Decides whether `prefix` is a path-prefix of `whole`.
pub fn is_path_prefix(prefix: &str, whole: &str) -> (r: bool)
    ensures
        r == spec_path_prefix(prefix@, whole@),
{
    let plen = prefix.unicode_len();
    let wlen = whole.unicode_len();
    if plen > wlen {
        return false;
    }
    let mut i: usize = 0;
    while i < plen
        invariant
            i <= plen,
            plen <= wlen,
            plen == prefix@.len(),
            wlen == whole@.len(),
            forall|k: int| 0 <= k < i ==> prefix@[k] == whole@[k],
        decreases plen - i,
    {
        if prefix.get_char(i) != whole.get_char(i) {
            proof {
                assert(whole@.subrange(0, plen as int) == prefix@ ==> whole@.subrange(
                    0,
                    plen as int,
                )[i as int] == prefix@[i as int]);
            }
            return false;
        }
        i += 1;
    }
    proof {
        assert(whole@.subrange(0, plen as int) =~= prefix@);
    }
    if plen == wlen {
        true
    } else {
        whole.get_char(plen) == '/'
    }
}

/// Resolves `rel` against `root`, given the canonicalization outcome of
/// their join: absolute paths are rejected with `NoAbsolutePaths`, a failed
/// canonicalization with `InvalidPath`, and a canonical form that leaves the
/// joined path with `PathEscapesContext`; otherwise the canonical absolute
/// path is returned.
pub fn resolve(root: &str, rel: &str, canon: Option<String>) -> (r: Result<String, Error>)
    ensures
        match resolve_outcome(root@, rel@, opt_str_view(canon)) {
            PathOutcome::Absolute => r matches Err(Error::NoAbsolutePaths { reason })
                && reason@ == rel@,
            PathOutcome::NotCanonical => r matches Err(Error::InvalidPath { reason })
                && reason@ == rel@,
            PathOutcome::Escapes => r matches Err(Error::PathEscapesContext { reason })
                && reason@ == rel@,
            PathOutcome::Resolved(c) => r matches Ok(s) && s@ == c,
        },
{
    if is_absolute_path(rel) {
        return Err(Error::no_absolute_path(rel));
    }
    match canon {
        Option::None => Err(Error::invalid_path(rel)),
        Option::Some(c) => {
            let joined = join_paths(root, rel);
            if is_path_prefix(joined.as_str(), c.as_str()) {
                Ok(c)
            } else {
                Err(Error::path_escapes_context(rel))
            }
        },
    }
}

/// A relative path whose canonical resolution lies outside the context root
/// is always rejected as escaping the sandbox: containment in the
/// uncanonicalized join implies containment in the root, so losing the root
/// means losing the join.
pub proof fn lemma_escaping_path_rejected(root: Seq<char>, rel: Seq<char>, c: Seq<char>)
    requires
        !spec_is_absolute(rel),
        !spec_path_prefix(root, c),
    ensures
        resolve_outcome(root, rel, Option::Some(c)) matches PathOutcome::Escapes,
{
    let j = spec_join(root, rel);
    if spec_path_prefix(j, c) {
        assert(j.len() == root.len() + 1 + rel.len());
        assert forall|k: int| 0 <= k < root.len() implies c[k] == root[k] by {
            assert(c.subrange(0, j.len() as int)[k] == j[k]);
        }
        assert(c.subrange(0, root.len() as int) =~= root);
        assert(c.subrange(0, j.len() as int)[root.len() as int] == j[root.len() as int]);
        assert(c[root.len() as int] == '/');
        assert(spec_path_prefix(root, c));
    }
}

/// Path containment: whenever resolution succeeds, the canonical result
/// keeps both the joined path and the context root itself as path-prefixes —
/// a resolved relative path can never reference a location outside its
/// context's root directory.
pub proof fn lemma_resolved_is_contained(
    root: Seq<char>,
    rel: Seq<char>,
    canon: Option<Seq<char>>,
    c: Seq<char>,
)
    requires
        resolve_outcome(root, rel, canon) == PathOutcome::Resolved(c),
    ensures
        spec_path_prefix(spec_join(root, rel), c),
        spec_path_prefix(root, c),
{
    let j = spec_join(root, rel);
    assert(j.len() == root.len() + 1 + rel.len());
    assert forall|k: int| 0 <= k < root.len() implies c[k] == root[k] by {
        assert(c.subrange(0, j.len() as int)[k] == j[k]);
    }
    assert(c.subrange(0, root.len() as int) =~= root);
    assert(c.subrange(0, j.len() as int)[root.len() as int] == j[root.len() as int]);
    assert(c[root.len() as int] == '/');
}

/// An absolute path is rejected with `NoAbsolutePaths` no matter what root it
/// is resolved against and no matter how canonicalization went.
pub proof fn lemma_absolute_path_rejected(root: Seq<char>, p: Seq<char>, canon: Option<Seq<char>>)
    requires
        spec_is_absolute(p),
    ensures
        resolve_outcome(root, p, canon) matches PathOutcome::Absolute,
{
}

} // verus!
