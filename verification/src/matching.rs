//! What a subtree of routes and its matches owe to the node above them.

use crate::ids::RouteMatchId;
use crate::method::Method;
use crate::route::{GeneratedRouteData, RouteView};
use crate::segment::{ParamsView, PathSegment, SegmentView};
use crate::ssr::SsrMode;
use vstd::prelude::*;

verus! {

/// A match that can hand out the parameters that were read from the path.
pub trait MatchParams {
    /// The parameters of the match, in the order in which they were read.
    spec fn params(&self) -> ParamsView;

    /// A copy of the parameters of the match.
    fn to_params(&self) -> (params: Vec<(String, String)>)
        ensures
            params.deep_view() == self.params(),
    ;
}

/// A match as the renderer sees it: which node answered, what it matched, and
/// the view to show with the match of the subtree below.
pub trait MatchInterface {
    type Child;

    type ViewFn;

    /// The node that answered.
    fn as_id(&self) -> RouteMatchId;

    /// The part of the path that the node itself matched.
    fn as_matched(&self) -> &str;

    /// Takes the match apart, into the node's view and the match below it.
    fn into_view_and_child(self) -> (Self::ViewFn, Option<Self::Child>);
}

/// A subtree of routes: it can be matched against a path, and its concrete
/// routes can be listed.
pub trait MatchNestedRoutes {
    type Data;

    type Match: MatchInterface + MatchParams;

    /// Whether the subtree matches `path`.
    spec fn matches(&self, path: Seq<char>) -> bool;

    /// The node that answers for a match of `path`.
    spec fn match_id(&self, path: Seq<char>) -> RouteMatchId;

    /// Whether `found` is what a match of `path` hands out.
    spec fn is_match(&self, path: Seq<char>, found: Self::Match) -> bool;

    /// What a match of `path` leaves of it.
    spec fn remaining(&self, path: Seq<char>) -> Seq<char>;

    /// The concrete routes of the subtree.
    spec fn routes(&self) -> Seq<RouteView>;

    /// Matches the subtree against `path`. Where it does not match, the path
    /// comes back as it was given.
    fn match_nested<'a>(&'a self, path: &'a str) -> (outcome: (
        Option<(RouteMatchId, Self::Match)>,
        &'a str,
    ))
        ensures
            outcome.0 is Some <==> self.matches(path@),
            outcome.0 matches Some((id, found)) ==> {
                &&& id == self.match_id(path@)
                &&& self.is_match(path@, found)
                &&& outcome.1@ == self.remaining(path@)
            },
            outcome.0 is None ==> outcome.1@ == path@,
    ;

    /// Lists the concrete routes of the subtree.
    fn generate_routes(&self) -> (routes: Vec<GeneratedRouteData>)
        ensures
            routes.deep_view() == self.routes(),
    ;
}

impl MatchParams for () {
    open spec fn params(&self) -> ParamsView {
        Seq::empty()
    }

    fn to_params(&self) -> (params: Vec<(String, String)>) {
        let params: Vec<(String, String)> = Vec::new();
        assert(params.deep_view() =~= Seq::empty());
        params
    }
}

impl MatchInterface for () {
    type Child = ();

    type ViewFn = ();

    fn as_id(&self) -> (id: RouteMatchId)
        ensures
            id == RouteMatchId(0),
    {
        RouteMatchId(0)
    }

    fn as_matched(&self) -> (matched: &str)
        ensures
            matched@.len() == 0,
    {
        let matched = "";
        proof {
            reveal_strlit("");
        }
        matched
    }

    fn into_view_and_child(self) -> (parts: ((), Option<()>))
        ensures
            parts.1 is None,
    {
        ((), None)
    }
}

/// The empty subtree: it matches every path and takes nothing from it, and it
/// stands for one route, of the unit segment alone.
impl MatchNestedRoutes for () {
    type Data = ();

    type Match = ();

    open spec fn matches(&self, path: Seq<char>) -> bool {
        true
    }

    open spec fn match_id(&self, path: Seq<char>) -> RouteMatchId {
        RouteMatchId(0)
    }

    open spec fn is_match(&self, path: Seq<char>, found: ()) -> bool {
        true
    }

    open spec fn remaining(&self, path: Seq<char>) -> Seq<char> {
        path
    }

    open spec fn routes(&self) -> Seq<RouteView> {
        seq![
            RouteView {
                segments: seq![SegmentView::Unit],
                ssr_mode: SsrMode::OutOfOrder,
                methods: Set::<Method>::empty(),
                regenerate: Seq::empty(),
            },
        ]
    }

    fn match_nested<'a>(&'a self, path: &'a str) -> (outcome: (
        Option<(RouteMatchId, ())>,
        &'a str,
    )) {
        (Some((RouteMatchId(0), ())), path)
    }

    fn generate_routes(&self) -> (routes: Vec<GeneratedRouteData>) {
        let mut route = GeneratedRouteData::default();
        route.segments.push(PathSegment::Unit);
        assert(route.segments.deep_view() =~= seq![SegmentView::Unit]);
        let mut routes: Vec<GeneratedRouteData> = Vec::new();
        routes.push(route);
        assert(routes.deep_view() =~= self.routes());
        routes
    }
}

} // verus!
