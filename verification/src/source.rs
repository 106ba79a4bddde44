//! Deriving the provisional task identifier from the source URL: the last
//! `/`-delimited segment, with one trailing repository suffix (`.git`)
//! stripped. The identifier is provisional because the task's true name is
//! known only once its manifest has been read.

use vstd::prelude::*;
use vstd::string::StrSliceExecFns;

use crate::text::ends_with;
use crate::text::str_ends_with;

verus! {

pub open spec fn repo_suffix() -> Seq<char> {
    ".git"@
}

/// One past the index of the last `'/'` in `u`, or `0` when there is none.
pub open spec fn last_slash_end(u: Seq<char>) -> int
    decreases u.len(),
{
    if u.len() == 0 {
        0
    } else if u.last() == '/' {
        u.len() as int
    } else {
        last_slash_end(u.drop_last())
    }
}

/// The last `/`-delimited segment of `u`.
pub open spec fn last_segment(u: Seq<char>) -> Seq<char> {
    u.subrange(last_slash_end(u), u.len() as int)
}

/// `seg` with exactly one trailing repository suffix stripped.
pub open spec fn strip_one_suffix(seg: Seq<char>) -> Seq<char> {
    if ends_with(seg, repo_suffix()) {
        seg.subrange(0, seg.len() - repo_suffix().len())
    } else {
        seg
    }
}

/// The provisional identifier derived from a source URL.
pub open spec fn provisional_ident(u: Seq<char>) -> Seq<char> {
    strip_one_suffix(last_segment(u))
}

pub proof fn lemma_last_slash_end(u: Seq<char>)
    ensures
        0 <= last_slash_end(u) <= u.len(),
        last_slash_end(u) > 0 ==> u[last_slash_end(u) - 1] == '/',
        forall|j: int| last_slash_end(u) <= j < u.len() ==> u[j] != '/',
    decreases u.len(),
{
    if u.len() > 0 && u.last() != '/' {
        lemma_last_slash_end(u.drop_last());
        assert forall|j: int| last_slash_end(u) <= j < u.len() implies u[j] != '/' by {
            if j < u.len() - 1 {
                assert(u.drop_last()[j] == u[j]);
            }
        }
    }
}

/// Law: the derivation strips exactly one trailing suffix occurrence.
/// When the last segment of the URL is `base` followed by one `.git`, the
/// derived identifier is exactly `base` — even when `base` itself ends
/// with `.git` once more.
pub proof fn lemma_strips_exactly_one_suffix(u: Seq<char>, base: Seq<char>)
    requires
        last_segment(u) == base + repo_suffix(),
    ensures
        provisional_ident(u) == base,
{
    let seg = last_segment(u);
    assert(ends_with(seg, repo_suffix())) by {
        assert(seg.subrange(seg.len() - repo_suffix().len(), seg.len() as int) =~= repo_suffix());
    }
    assert(seg.subrange(0, seg.len() - repo_suffix().len()) =~= base);
}

/// Derive the provisional identifier from a source URL: `Some` exactly
/// when the derived identifier is non-empty, `None` for a URL with no
/// usable final segment.
pub fn derive_provisional_ident(url: &str) -> (r: Option<String>)
    ensures
        r is Some <==> provisional_ident(url@).len() > 0,
        r matches Some(s) ==> s@ == provisional_ident(url@),
{
    let len = url.unicode_len();
    let mut e: usize = len;
    while e > 0 && url.get_char(e - 1) != '/'
        invariant
            0 <= e <= len,
            len == url@.len(),
            forall|j: int| e <= j < len ==> url@[j] != '/',
        decreases e,
    {
        e -= 1;
    }
    proof {
        lemma_last_slash_end(url@);
        let lse = last_slash_end(url@);
        if e < lse {
            assert(url@[lse - 1] != '/');
        }
        if lse < e {
            assert(url@[e - 1] != '/');
        }
        assert(e == lse);
    }
    let seg = url.substring_char(e, len);
    proof {
        reveal_strlit(".git");
    }
    if str_ends_with(seg, ".git") {
        let seglen = seg.unicode_len();
        let base = seg.substring_char(0, seglen - 4);
        if base.unicode_len() > 0 {
            Some(base.to_owned())
        } else {
            None
        }
    } else {
        if seg.unicode_len() > 0 {
            Some(seg.to_owned())
        } else {
            None
        }
    }
}

} // verus!
