//! Two plain segment matchers: one for a fixed piece of a path, and one that
//! reads a parameter.

use crate::segment::{PartialPathMatch, PathMatch, PathSegment, PossibleRouteMatch, SegmentView};
use vstd::prelude::*;

verus! {

/// Matches a fixed text at the start of a path, up to the end of the path or
/// to the next slash: `StaticSegment("/users")` matches `/users` and
/// `/users/42`, and not `/usersX`.
#[derive(Clone, Copy, Debug, PartialEq, Eq)]
pub struct StaticSegment(pub &'static str);

/// Matches a slash and the text that follows it up to the end of the path or
/// to the next slash, and reads that text as the value of a parameter:
/// `ParamSegment("id")` finds `id = 42` in `/42/edit`. The text must not be
/// empty.
#[derive(Clone, Copy, Debug, PartialEq, Eq)]
pub struct ParamSegment(pub &'static str);

/// Where a piece of a path ends that starts at `from`: at the first slash at
/// or after `from`, or at the end of the path.
pub open spec fn piece_end(path: Seq<char>, from: int) -> int
    decreases path.len() - from,
{
    if from < 0 || from >= path.len() || path[from] == '/' {
        from
    } else {
        piece_end(path, from + 1)
    }
}

/// A path cut in two at `at`, as the find of a matcher that read `params`.
pub open spec fn cut(path: Seq<char>, at: int, params: Seq<(Seq<char>, Seq<char>)>) -> PathMatch {
    PathMatch {
        remaining: path.subrange(at, path.len() as int),
        params,
        matched: path.subrange(0, at),
    }
}

/// The two parts of `path` from `at`: what comes before, and what is left.
fn split<'a>(path: &'a str, at: usize, len: usize) -> (parts: (&'a str, &'a str))
    requires
        at <= len == path@.len(),
    ensures
        parts.0@ == path@.subrange(0, at as int),
        parts.1@ == path@.subrange(at as int, len as int),
{
    (path.substring_char(0, at), path.substring_char(at, len))
}

impl PossibleRouteMatch for StaticSegment {
    open spec fn found(&self, path: Seq<char>) -> Option<PathMatch> {
        let text = self.0@;
        if text.is_prefix_of(path) && (path.len() == text.len() || path[text.len() as int]
            == '/') {
            Some(cut(path, text.len() as int, Seq::empty()))
        } else {
            None
        }
    }

    open spec fn segments(&self) -> Seq<SegmentView> {
        seq![SegmentView::Static(self.0@)]
    }

    fn test<'a>(&self, path: &'a str) -> (found: Option<PartialPathMatch<'a>>) {
        let text = self.0;
        let size = text.unicode_len();
        let len = path.unicode_len();
        if len < size {
            return None;
        }
        let mut at: usize = 0;
        while at < size
            invariant
                at <= size <= len,
                text@ == self.0@,
                size == text@.len(),
                len == path@.len(),
                forall|i: int| 0 <= i < at ==> path@[i] == text@[i],
            decreases size - at,
        {
            if path.get_char(at) != text.get_char(at) {
                assert(path@.subrange(0, size as int)[at as int] != text@[at as int]);
                return None;
            }
            at = at + 1;
        }
        assert(text@ =~= path@.subrange(0, size as int));
        if len > size && path.get_char(size) != '/' {
            return None;
        }
        let (matched, remaining) = split(path, size, len);
        let params: Vec<(String, String)> = Vec::new();
        assert(params.deep_view() =~= Seq::empty());
        Some(PartialPathMatch::new(remaining, params, matched))
    }

    fn generate_path(&self, path: &mut Vec<PathSegment>) {
        path.push(PathSegment::Static(self.0.to_string()));
        assert(path.deep_view() =~= old(path).deep_view() + self.segments());
    }
}

impl PossibleRouteMatch for ParamSegment {
    open spec fn found(&self, path: Seq<char>) -> Option<PathMatch> {
        if path.len() >= 2 && path[0] == '/' && path[1] != '/' {
            let end = piece_end(path, 1);
            Some(cut(path, end, seq![(self.0@, path.subrange(1, end))]))
        } else {
            None
        }
    }

    open spec fn segments(&self) -> Seq<SegmentView> {
        seq![SegmentView::Param(self.0@)]
    }

    fn test<'a>(&self, path: &'a str) -> (found: Option<PartialPathMatch<'a>>) {
        let len = path.unicode_len();
        if len < 2 || path.get_char(0) != '/' || path.get_char(1) == '/' {
            return None;
        }
        let mut end: usize = 2;
        while end < len && path.get_char(end) != '/'
            invariant
                2 <= end <= len,
                len == path@.len(),
                piece_end(path@, 1) == piece_end(path@, end as int),
            decreases len - end,
        {
            end = end + 1;
        }
        let (matched, remaining) = split(path, end, len);
        let value = path.substring_char(1, end).to_string();
        let mut params: Vec<(String, String)> = Vec::new();
        params.push((self.0.to_string(), value));
        assert(params.deep_view() =~= seq![(self.0@, path@.subrange(1, end as int))]);
        Some(PartialPathMatch::new(remaining, params, matched))
    }

    fn generate_path(&self, path: &mut Vec<PathSegment>) {
        path.push(PathSegment::Param(self.0.to_string()));
        assert(path.deep_view() =~= old(path).deep_view() + self.segments());
    }
}

/// What `piece_end` says: from `from` to the end of the piece there is no
/// slash, and the piece ends at a slash or with the path.
pub proof fn lemma_piece_end(path: Seq<char>, from: int)
    requires
        0 <= from <= path.len(),
    ensures
        from <= piece_end(path, from) <= path.len(),
        forall|i: int| from <= i < piece_end(path, from) ==> path[i] != '/',
        piece_end(path, from) == path.len() || path[piece_end(path, from)] == '/',
    decreases path.len() - from,
{
    if from < path.len() && path[from] != '/' {
        lemma_piece_end(path, from + 1);
    }
}

/// The two parts that a static segment finds add up to the path.
pub proof fn lemma_static_parts(segment: StaticSegment, path: Seq<char>)
    requires
        segment.found(path) is Some,
    ensures
        segment.found(path)->0.matched + segment.found(path)->0.remaining == path,
        segment.found(path)->0.matched == segment.0@,
        segment.found(path)->0.params.len() == 0,
{
    let part = segment.found(path)->0;
    assert(part.matched + part.remaining =~= path);
    assert(part.matched =~= segment.0@);
}

/// The two parts that a parameter segment finds add up to the path, and the
/// value that it reads is the matched part without its slash.
pub proof fn lemma_param_parts(segment: ParamSegment, path: Seq<char>)
    requires
        segment.found(path) is Some,
    ensures
        segment.found(path)->0.matched + segment.found(path)->0.remaining == path,
        segment.found(path)->0.params.len() == 1,
        segment.found(path)->0.params[0].0 == segment.0@,
        seq!['/'] + segment.found(path)->0.params[0].1 == segment.found(path)->0.matched,
        segment.found(path)->0.params[0].1.len() > 0,
        !segment.found(path)->0.params[0].1.contains('/'),
{
    let part = segment.found(path)->0;
    lemma_piece_end(path, 1);
    assert(piece_end(path, 1) == piece_end(path, 2));
    lemma_piece_end(path, 2);
    assert(part.matched + part.remaining =~= path);
    assert(seq!['/'] + part.params[0].1 =~= part.matched);
}

} // verus!
