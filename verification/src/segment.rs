//! Path segments, and what a segment matcher owes to a route node.

use vstd::prelude::*;

verus! {

/// One segment of a route's path, as it is written when routes are listed.
#[derive(Debug, PartialEq, Eq, Hash)]
pub enum PathSegment {
    Unit,
    Static(String),
    Param(String),
    OptionalParam(String),
    Splat(String),
}

/// A path segment with its text as a sequence of characters.
pub ghost enum SegmentView {
    Unit,
    Static(Seq<char>),
    Param(Seq<char>),
    OptionalParam(Seq<char>),
    Splat(Seq<char>),
}

impl View for PathSegment {
    type V = SegmentView;

    open spec fn view(&self) -> SegmentView {
        match self {
            PathSegment::Unit => SegmentView::Unit,
            PathSegment::Static(text) => SegmentView::Static(text@),
            PathSegment::Param(name) => SegmentView::Param(name@),
            PathSegment::OptionalParam(name) => SegmentView::OptionalParam(name@),
            PathSegment::Splat(name) => SegmentView::Splat(name@),
        }
    }
}

impl DeepView for PathSegment {
    type V = SegmentView;

    open spec fn deep_view(&self) -> SegmentView {
        self@
    }
}

impl Clone for PathSegment {
    fn clone(&self) -> (copy: Self)
        ensures
            copy@ == self@,
    {
        match self {
            PathSegment::Unit => PathSegment::Unit,
            PathSegment::Static(text) => PathSegment::Static(text.clone()),
            PathSegment::Param(name) => PathSegment::Param(name.clone()),
            PathSegment::OptionalParam(name) => PathSegment::OptionalParam(name.clone()),
            PathSegment::Splat(name) => PathSegment::Splat(name.clone()),
        }
    }
}

/// The parameters that a match took from a path: names and values in the
/// order in which they were found.
pub type ParamsView = Seq<(Seq<char>, Seq<char>)>;

/// What a segment matcher found at the start of a path, as sequences of
/// characters.
pub ghost struct PathMatch {
    pub remaining: Seq<char>,
    pub params: ParamsView,
    pub matched: Seq<char>,
}

/// What a segment matcher found at the start of a path: the part that it
/// matched, the part that it left, and the parameters that it read.
#[derive(Debug, PartialEq, Eq)]
pub struct PartialPathMatch<'a> {
    pub remaining: &'a str,
    pub params: Vec<(String, String)>,
    pub matched: &'a str,
}

impl<'a> View for PartialPathMatch<'a> {
    type V = PathMatch;

    open spec fn view(&self) -> PathMatch {
        PathMatch {
            remaining: self.remaining@,
            params: self.params.deep_view(),
            matched: self.matched@,
        }
    }
}

impl<'a> PartialPathMatch<'a> {
    pub fn new(remaining: &'a str, params: Vec<(String, String)>, matched: &'a str) -> (found:
        Self)
        ensures
            found.remaining == remaining,
            found.params == params,
            found.matched == matched,
    {
        PartialPathMatch { remaining, params, matched }
    }

    /// Whether the matcher left nothing of the path.
    pub fn is_complete(&self) -> (complete: bool)
        ensures
            complete == at_end(self.remaining@),
    {
        is_at_end(self.remaining)
    }
}

/// A path is at its end when nothing is left of it, or one slash.
pub open spec fn at_end(rest: Seq<char>) -> bool {
    rest.len() == 0 || rest == seq!['/']
}

/// Whether nothing is left of a path but, at most, one closing slash.
pub fn is_at_end(rest: &str) -> (ended: bool)
    ensures
        ended == at_end(rest@),
{
    if rest.is_empty() {
        true
    } else if rest.unicode_len() == 1 {
        let only = rest.get_char(0);
        assert(only == '/' ==> rest@ =~= seq!['/']);
        only == '/'
    } else {
        false
    }
}

/// A segment matcher: the part of a route node that knows its own piece of
/// the path. A node asks it to read the start of a path, and to write down
/// the segments that it stands for.
pub trait PossibleRouteMatch {
    /// What the matcher finds at the start of `path`, and `None` where the
    /// path does not start as the matcher wants.
    spec fn found(&self, path: Seq<char>) -> Option<PathMatch>;

    /// The segments that the matcher stands for.
    spec fn segments(&self) -> Seq<SegmentView>;

    /// Reads the start of `path`.
    fn test<'a>(&self, path: &'a str) -> (found: Option<PartialPathMatch<'a>>)
        ensures
            found is Some <==> self.found(path@) is Some,
            found matches Some(part) ==> self.found(path@) == Some(part@),
    ;

    /// Writes the matcher's segments at the end of `path`.
    fn generate_path(&self, path: &mut Vec<PathSegment>)
        ensures
            final(path).deep_view() == old(path).deep_view() + self.segments(),
    ;
}

} // verus!
