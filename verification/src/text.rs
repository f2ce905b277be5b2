//! Text shaping for identifiers, spreadsheet cells and paths: sanitization,
//! trimming, and taking the file name of a path.

use vstd::prelude::*;
use crate::chars::{is_alphanum, is_white, push_char};

verus! {

/// What sanitization does to one character: alphanumerics are kept, everything
/// else becomes the underscore placeholder.
pub open spec fn sanitize_char(c: char) -> char {
    if is_alphanum(c) {
        c
    } else {
        '_'
    }
}

/// The sanitized form of an identifier: each character replaced per
/// `sanitize_char`, length and order preserved. An empty identifier — never
/// produced by upstream validation, but tolerated — falls back to the
/// placeholder alone.
pub open spec fn spec_sanitize(s: Seq<char>) -> Seq<char> {
    if s.len() == 0 {
        seq!['_']
    } else {
        s.map_values(|c: char| sanitize_char(c))
    }
}

/// Sanitizes an identifier into a filename stem, exactly as `spec_sanitize`
/// states it.
pub fn sanitize(identifier: &str) -> (r: String)
    ensures
        r@ == spec_sanitize(identifier@),
{
    let len = identifier.unicode_len();
    if len == 0 {
        proof {
            reveal_strlit("_");
        }
        let r = String::from_str("_");
        proof {
            assert(r@ =~= seq!['_']);
        }
        return r;
    }
    let mut out = String::new();
    let mut i: usize = 0;
    while i < len
        invariant
            len == identifier@.len(),
            i <= len,
            out@ =~= identifier@.subrange(0, i as int).map_values(|c: char| sanitize_char(c)),
        decreases len - i,
    {
        let c = identifier.get_char(i);
        let sc = if c.is_alphanumeric() {
            c
        } else {
            '_'
        };
        push_char(&mut out, sc);
        proof {
            assert(identifier@.subrange(0, i + 1).map_values(|c: char| sanitize_char(c)) =~= identifier@.subrange(
                0,
                i as int,
            ).map_values(|c: char| sanitize_char(c)).push(sanitize_char(identifier@[i as int])));
        }
        i = i + 1;
    }
    proof {
        assert(identifier@.subrange(0, len as int) =~= identifier@);
    }
    out
}

/// `s` with its leading whitespace removed.
pub open spec fn spec_trim_front(s: Seq<char>) -> Seq<char>
    decreases s.len(),
{
    if s.len() == 0 {
        s
    } else if is_white(s[0]) {
        spec_trim_front(s.drop_first())
    } else {
        s
    }
}

/// `s` with its trailing whitespace removed.
pub open spec fn spec_trim_back(s: Seq<char>) -> Seq<char>
    decreases s.len(),
{
    if s.len() == 0 {
        s
    } else if is_white(s.last()) {
        spec_trim_back(s.drop_last())
    } else {
        s
    }
}

/// `s` with whitespace removed from both ends.
pub open spec fn spec_trim(s: Seq<char>) -> Seq<char> {
    spec_trim_back(spec_trim_front(s))
}

/// Trims leading and trailing whitespace, exactly as `spec_trim` states it.
pub fn trim(s: &str) -> (r: String)
    ensures
        r@ == spec_trim(s@),
{
    let len = s.unicode_len();
    proof {
        assert(s@.subrange(0, len as int) =~= s@);
    }
    let mut start: usize = 0;
    while start < len && s.get_char(start).is_whitespace()
        invariant
            len == s@.len(),
            start <= len,
            spec_trim_front(s@) == spec_trim_front(s@.subrange(start as int, len as int)),
        decreases len - start,
    {
        proof {
            let sub = s@.subrange(start as int, len as int);
            assert(sub[0] == s@[start as int]);
            assert(sub.drop_first() =~= s@.subrange(start + 1, len as int));
        }
        start = start + 1;
    }
    proof {
        assert(spec_trim_front(s@) == s@.subrange(start as int, len as int)) by {
            let sub = s@.subrange(start as int, len as int);
            if start < len {
                assert(sub[0] == s@[start as int]);
            }
        }
    }
    let mut end: usize = len;
    while end > start && s.get_char(end - 1).is_whitespace()
        invariant
            len == s@.len(),
            start <= end <= len,
            spec_trim_front(s@) == s@.subrange(start as int, len as int),
            spec_trim_back(s@.subrange(start as int, len as int)) == spec_trim_back(
                s@.subrange(start as int, end as int),
            ),
        decreases end,
    {
        proof {
            let sub = s@.subrange(start as int, end as int);
            assert(sub.last() == s@[end - 1]);
            assert(sub.drop_last() =~= s@.subrange(start as int, end - 1));
        }
        end = end - 1;
    }
    proof {
        let sub = s@.subrange(start as int, end as int);
        if end > start {
            assert(sub.last() == s@[end - 1]);
        }
        assert(spec_trim_back(sub) == sub);
    }
    String::from_str(s.substring_char(start, end))
}

/// The file-name part of a path: the characters after the last separator, or
/// the whole path when it holds no separator.
pub open spec fn spec_file_name(p: Seq<char>) -> Seq<char>
    decreases p.len(),
{
    if p.len() == 0 {
        Seq::empty()
    } else if p.last() == '/' {
        Seq::empty()
    } else {
        spec_file_name(p.drop_last()).push(p.last())
    }
}

/// The file name of a path is its suffix after the last separator.
pub proof fn lemma_file_name_suffix(p: Seq<char>, i: int)
    requires
        0 <= i <= p.len(),
        forall|j: int| i <= j < p.len() ==> p[j] != '/',
        i == 0 || p[i - 1] == '/',
    ensures
        spec_file_name(p) =~= p.subrange(i, p.len() as int),
    decreases p.len(),
{
    if p.len() == i {
        if i > 0 {
            assert(p.last() == p[i - 1]);
        }
    } else {
        assert(p.last() == p[p.len() - 1]);
        assert(p.last() != '/');
        let q = p.drop_last();
        assert(forall|j: int| i <= j < q.len() ==> q[j] == p[j]);
        if i > 0 {
            assert(q[i - 1] == p[i - 1]);
        }
        lemma_file_name_suffix(q, i);
        assert(spec_file_name(p) =~= q.subrange(i, q.len() as int).push(p.last()));
    }
}

/// Extracts the file name of a path, exactly as `spec_file_name` states it.
pub fn file_name_of(path: &str) -> (r: String)
    ensures
        r@ == spec_file_name(path@),
{
    let len = path.unicode_len();
    let mut cut: usize = len;
    while cut > 0 && path.get_char(cut - 1) != '/'
        invariant
            len == path@.len(),
            cut <= len,
            forall|j: int| cut <= j < len ==> path@[j] != '/',
        decreases cut,
    {
        cut = cut - 1;
    }
    proof {
        lemma_file_name_suffix(path@, cut as int);
    }
    String::from_str(path.substring_char(cut, len))
}

} // verus!
