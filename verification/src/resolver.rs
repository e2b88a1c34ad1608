//! The path resolver: from the target of a request to the file that answers
//! it, and the check that this file lies under the document root.
//!
//! Resolution has two halves with the file system between them. The first
//! half turns the target into a candidate path under the root. The caller has
//! the file system make that path canonical. The second half takes what came
//! back and decides between a file to serve, the error page, and a refusal.

use crate::text::{
    find_char, has_prefix, position_of, slice_of, starts_with, text_of, to_chars,
};
use vstd::prelude::*;
use vstd::string::*;

verus! {

/// What `urlencoding::decode` makes of a text: the text with each `%` and two
/// hexadecimal digits replaced by the byte they denote, or nothing where the
/// bytes that result are not UTF-8.
pub uninterp spec fn percent_decoded(text: Seq<char>) -> Option<Seq<char>>;

/// `urlencoding::decode`: percent-decodes `text`; `None` where the crate
/// reports that the decoded bytes are not UTF-8.
#[verifier::external_body]
fn percent_decode(text: &str) -> (decoded: Option<String>)
    ensures
        text_of(decoded) == percent_decoded(text@),
{
    match urlencoding::decode(text) {
        Ok(decoded) => Some(decoded.into_owned()),
        Err(_) => None,
    }
}

/// `target` without one leading `/`.
pub open spec fn root_relative_of(target: Seq<char>) -> Seq<char> {
    if target.len() > 0 && target[0] == '/' {
        target.subrange(1, target.len() as int)
    } else {
        target
    }
}

/// `location` up to its first `?`: the query string is left off.
pub open spec fn without_query(location: Seq<char>) -> Seq<char> {
    location.subrange(0, position_of(location, '?', 0))
}

/// `relative` under `root`. A relative path is appended to the root, with one
/// `/` between them unless the root ends in one or is empty; an absolute path
/// stands for itself.
pub open spec fn joined(root: Seq<char>, relative: Seq<char>) -> Seq<char> {
    if relative.len() > 0 && relative[0] == '/' {
        relative
    } else if root.len() == 0 || root.last() == '/' {
        root + relative
    } else {
        root + seq!['/'] + relative
    }
}

/// The location that a decoded target names; a target that does not decode
/// names the root itself.
pub open spec fn location_from(decoded: Option<Seq<char>>) -> Seq<char> {
    match decoded {
        Some(location) => location,
        None => Seq::empty(),
    }
}

/// The candidate path for a target whose decoding is `decoded`.
pub open spec fn candidate_from(root: Seq<char>, decoded: Option<Seq<char>>) -> Seq<char> {
    joined(root, without_query(location_from(decoded)))
}

/// The candidate path for a target: one leading `/` is taken off, the rest is
/// percent-decoded, the query string is left off, and what remains is joined
/// under the root.
pub open spec fn candidate_of(root: Seq<char>, target: Seq<char>) -> Seq<char> {
    candidate_from(root, percent_decoded(root_relative_of(target)))
}

/// Whether `path` is `root` or lies below it, component by component.
pub open spec fn within(root: Seq<char>, path: Seq<char>) -> bool {
    has_prefix(path, root) && (path.len() == root.len() || (root.len() > 0 && root.last() == '/')
        || path[root.len() as int] == '/')
}

/// The part of `path` below `root`; `path` itself where it is not within
/// `root`. This is the normalized location of a request: the key under which
/// its content is cached.
pub open spec fn location_of(root: Seq<char>, path: Seq<char>) -> Seq<char> {
    if !within(root, path) {
        path
    } else if path.len() == root.len() || (root.len() > 0 && root.last() == '/') {
        path.subrange(root.len() as int, path.len() as int)
    } else {
        path.subrange(root.len() as int + 1, path.len() as int)
    }
}

/// How a request resolves.
#[derive(Clone, Debug, PartialEq, Eq)]
pub enum Resolution {
    /// The canonical path of what is asked for.
    Found { path: String },
    /// Nothing exists at the candidate path; the error page stands in.
    NotFound { error_page: String },
    /// The canonical path lies outside the root.
    Outside,
}

/// How a request resolves, over plain text.
pub enum Resolved {
    Found { path: Seq<char> },
    NotFound { error_page: Seq<char> },
    Outside,
}

impl View for Resolution {
    type V = Resolved;

    open spec fn view(&self) -> Resolved {
        match self {
            Resolution::Found { path } => Resolved::Found { path: path@ },
            Resolution::NotFound { error_page } => Resolved::NotFound { error_page: error_page@ },
            Resolution::Outside => Resolved::Outside,
        }
    }
}

/// The outcome of resolution. `canonical` is the canonical form of the
/// candidate path, or nothing where the file system has none; `root` is the
/// canonical root. Without a canonical form the request is not found. With
/// one, it is found where the path lies within the root or `relaxed` lifts
/// the containment check, and refused otherwise.
pub open spec fn resolution_of(
    root: Seq<char>,
    canonical: Option<Seq<char>>,
    error_page: Seq<char>,
    relaxed: bool,
) -> Resolved {
    match canonical {
        None => Resolved::NotFound { error_page },
        Some(path) => if relaxed || within(root, path) {
            Resolved::Found { path }
        } else {
            Resolved::Outside
        },
    }
}

/// Containment: with the check in force, whatever resolves lies within the
/// root, and whatever has a canonical form outside the root is refused.
pub proof fn lemma_containment(
    root: Seq<char>,
    canonical: Option<Seq<char>>,
    error_page: Seq<char>,
)
    ensures
        resolution_of(root, canonical, error_page, false) matches Resolved::Found { path }
            ==> within(root, path) && canonical == Some(path),
        canonical is Some && !within(root, canonical.unwrap()) ==> resolution_of(
            root,
            canonical,
            error_page,
            false,
        ) == Resolved::Outside,
        canonical is Some && within(root, canonical.unwrap()) ==> resolution_of(
            root,
            canonical,
            error_page,
            false,
        ) == (Resolved::Found { path: canonical.unwrap() }),
{
}

/// Takes one leading `/` off `target`.
pub fn root_relative(target: &str) -> (relative: String)
    ensures
        relative@ == root_relative_of(target@),
{
    let chars = to_chars(target);
    if chars.len() > 0 && chars[0] == '/' {
        slice_of(target, 1, chars.len())
    } else {
        proof {
            assert(target@.subrange(0, target@.len() as int) =~= target@);
        }
        slice_of(target, 0, chars.len())
    }
}

/// Joins `relative` under `root`.
pub fn join(root: &str, relative: &str) -> (path: String)
    ensures
        path@ == joined(root@, relative@),
{
    let rel = to_chars(relative);
    if rel.len() > 0 && rel[0] == '/' {
        return relative.to_owned();
    }
    let base = to_chars(root);
    let mut path = root.to_owned();
    if base.len() > 0 && base[base.len() - 1] != '/' {
        proof {
            reveal_strlit("/");
        }
        path.append("/");
        assert(path@ =~= root@ + seq!['/']);
    }
    path.append(relative);
    path
}

/// The candidate path for a target, given what the decoder made of it.
pub fn candidate_for(root: &str, decoded: Option<String>) -> (path: String)
    ensures
        path@ == candidate_from(root@, text_of(decoded)),
{
    let location = match decoded {
        Some(location) => location,
        None => String::new(),
    };
    let chars = to_chars(location.as_str());
    let query = find_char(&chars, '?', 0);
    let relative = slice_of(location.as_str(), 0, query);
    join(root, relative.as_str())
}

/// The candidate path for the target of a request: the path that the file
/// system is asked to make canonical.
pub fn candidate(root: &str, target: &str) -> (path: String)
    ensures
        path@ == candidate_of(root@, target@),
{
    let relative = root_relative(target);
    let decoded = percent_decode(relative.as_str());
    candidate_for(root, decoded)
}

/// Tests whether `path` is `root` or lies below it.
pub fn is_within(root: &str, path: &str) -> (b: bool)
    ensures
        b == within(root@, path@),
{
    let r = to_chars(root);
    let p = to_chars(path);
    if !starts_with(&p, &r) {
        return false;
    }
    p.len() == r.len() || (r.len() > 0 && r[r.len() - 1] == '/') || p[r.len()] == '/'
}

/// The normalized location of a canonical path: its part below the root.
pub fn location(root: &str, path: &str) -> (relative: String)
    ensures
        relative@ == location_of(root@, path@),
{
    let r = to_chars(root);
    let p = to_chars(path);
    if !is_within(root, path) {
        path.to_owned()
    } else if p.len() == r.len() || (r.len() > 0 && r[r.len() - 1] == '/') {
        slice_of(path, r.len(), p.len())
    } else {
        slice_of(path, r.len() + 1, p.len())
    }
}

/// Decides how a request resolves once the file system has answered: see
/// `resolution_of`.
pub fn resolve(root: &str, canonical: Option<String>, error_page: String, relaxed: bool) -> (r:
    Resolution)
    ensures
        r@ == resolution_of(root@, text_of(canonical), error_page@, relaxed),
{
    match canonical {
        None => Resolution::NotFound { error_page },
        Some(path) => {
            if relaxed || is_within(root, path.as_str()) {
                Resolution::Found { path }
            } else {
                Resolution::Outside
            }
        },
    }
}

} // verus!
