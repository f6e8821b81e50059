//! What holds of every route tree, stated over the definitions that the
//! contracts of matching and listing use, and proved from them.

use crate::matching::{MatchNestedRoutes, MatchParams};
use crate::method::Method;
use crate::nested::{NestedMatch, NestedRoute};
use crate::route::RouteView;
use crate::segment::{at_end, PossibleRouteMatch};
use crate::ssr::SsrMode;
use vstd::prelude::*;

verus! {

/// A node without a child matches a path exactly where its matcher finds its
/// part at the start of the path and leaves nothing, or one slash; what is
/// left of the path is then what the matcher left.
pub proof fn lemma_leaf_match<Segments, Children, Data, ViewFn>(
    route: NestedRoute<Segments, Children, Data, ViewFn>,
    path: Seq<char>,
) where Segments: PossibleRouteMatch, Children: MatchNestedRoutes, ViewFn: Clone
    requires
        route@.children is None,
    ensures
        route.matches(path) <==> (route@.segments.found(path) matches Some(part) && at_end(
            part.remaining,
        )),
        route.matches(path) ==> route.remaining(path) == route@.segments.found(
            path,
        )->0.remaining,
{
}

/// Where the two parts that the matcher of a node finds add up to the path,
/// what the node's match holds as matched is the start of the path; for a
/// node without a child, that and what is left add up to the path.
pub proof fn lemma_matched_is_prefix<Segments, Children, Data, ViewFn>(
    route: NestedRoute<Segments, Children, Data, ViewFn>,
    path: Seq<char>,
    found: NestedMatch<Children::Match, ViewFn>,
) where Segments: PossibleRouteMatch, Children: MatchNestedRoutes, ViewFn: Clone
    requires
        route.is_match(path, found),
        route@.segments.found(path)->0.matched + route@.segments.found(path)->0.remaining
            == path,
    ensures
        found@.matched.is_prefix_of(path),
        route@.children is None ==> found@.matched + route.remaining(path) == path,
{
    let part = route@.segments.found(path)->0;
    assert((part.matched + part.remaining).subrange(0, part.matched.len() as int)
        =~= part.matched);
}

/// A node with a child does not match where its child does not match what
/// the node's matcher left, and neither where the child leaves more of the
/// path than one slash.
pub proof fn lemma_child_must_match<Segments, Children, Data, ViewFn>(
    route: NestedRoute<Segments, Children, Data, ViewFn>,
    path: Seq<char>,
) where Segments: PossibleRouteMatch, Children: MatchNestedRoutes, ViewFn: Clone
    requires
        route@.children is Some,
    ensures
        route.matches(path) ==> route@.segments.found(path) is Some,
        route@.segments.found(path) matches Some(part) ==> (route.matches(path) <==> {
            &&& route@.children->0.matches(part.remaining)
            &&& at_end(route@.children->0.remaining(part.remaining))
        }),
{
}

/// Whatever a tree matches, it matches to the end: nothing is left of the
/// path but, at most, one slash. This holds at every depth, whatever the
/// subtree below the node is.
pub proof fn lemma_match_reaches_end<Segments, Children, Data, ViewFn>(
    route: NestedRoute<Segments, Children, Data, ViewFn>,
    path: Seq<char>,
) where Segments: PossibleRouteMatch, Children: MatchNestedRoutes, ViewFn: Clone
    requires
        route.matches(path),
    ensures
        at_end(route.remaining(path)),
{
}

/// The parameters of a match begin with those that the node's own matcher
/// read; those of the child's match follow them.
pub proof fn lemma_params_parent_first<Segments, Children, Data, ViewFn>(
    route: NestedRoute<Segments, Children, Data, ViewFn>,
    path: Seq<char>,
    found: NestedMatch<Children::Match, ViewFn>,
) where Segments: PossibleRouteMatch, Children: MatchNestedRoutes, ViewFn: Clone
    requires
        route.is_match(path, found),
    ensures
        route@.segments.found(path) matches Some(part) && part.params.is_prefix_of(
            found@.params,
        ),
        route@.children is None ==> found@.params == route@.segments.found(path)->0.params,
        route@.children is Some ==> found@.child is Some && found@.params
            == route@.segments.found(path)->0.params + found@.child->0.params(),
{
    let part = route@.segments.found(path)->0;
    assert(found@.params.subrange(0, part.params.len() as int) =~= part.params);
}

/// In a match of two levels, the parameters are those of the parent's
/// matcher, followed by those that the child's matcher read in what the
/// parent left.
pub proof fn lemma_params_two_levels<Upper, Lower, Below, Data, LowerData, ViewFn, LowerViewFn>(
    route: NestedRoute<Upper, NestedRoute<Lower, Below, LowerData, LowerViewFn>, Data, ViewFn>,
    path: Seq<char>,
    found: NestedMatch<NestedMatch<Below::Match, LowerViewFn>, ViewFn>,
) where
    Upper: PossibleRouteMatch,
    Lower: PossibleRouteMatch,
    Below: MatchNestedRoutes,
    ViewFn: Clone,
    LowerViewFn: Clone,

    requires
        route.is_match(path, found),
        route@.children matches Some(child) && child@.children is None,
    ensures
        ({
            let upper = route@.segments.found(path)->0;
            let lower = route@.children->0@.segments.found(upper.remaining)->0;
            found@.params == upper.params + lower.params
        }),
{
}

/// A node without a child stands for exactly one route, its own.
pub proof fn lemma_leaf_has_one_route<Segments, Children, Data, ViewFn>(
    route: NestedRoute<Segments, Children, Data, ViewFn>,
) where Segments: PossibleRouteMatch, Children: MatchNestedRoutes, ViewFn: Clone
    requires
        route@.children is None,
    ensures
        route.routes().len() == 1,
        route.routes()[0] == route.own_route(),
        route.routes()[0].segments == route@.segments.segments(),
{
}

/// A node with a child stands for as many routes as its child, in the same
/// order, and each begins with the segments of the node itself.
pub proof fn lemma_routes_follow_child<Segments, Children, Data, ViewFn>(
    route: NestedRoute<Segments, Children, Data, ViewFn>,
) where Segments: PossibleRouteMatch, Children: MatchNestedRoutes, ViewFn: Clone
    requires
        route@.children is Some,
    ensures
        route.routes().len() == route@.children->0.routes().len(),
        forall|i: int|
            0 <= i < route.routes().len() ==> {
                &&& #[trigger] route.routes()[i] == route.own_route().nest(
                    route@.children->0.routes()[i],
                )
                &&& route@.segments.segments().is_prefix_of(route.routes()[i].segments)
            },
{
    let own = route.own_route();
    let below = route@.children->0.routes();
    assert forall|i: int| 0 <= i < route.routes().len() implies {
        &&& #[trigger] route.routes()[i] == own.nest(below[i])
        &&& route@.segments.segments().is_prefix_of(route.routes()[i].segments)
    } by {
        let segments = route.routes()[i].segments;
        assert(segments.subrange(0, own.segments.len() as int) =~= own.segments);
    }
}

/// The merged rendering mode is the child's where that strictly exceeds the
/// parent's, and the parent's otherwise: never a third mode, and the
/// parent's where the two are the same.
pub proof fn lemma_merged_mode(parent: SsrMode, child: SsrMode)
    ensures
        child.exceeds(parent) ==> RouteView::merged_mode(parent, child) == child,
        !child.exceeds(parent) ==> RouteView::merged_mode(parent, child) == parent,
        RouteView::merged_mode(parent, child) == parent || RouteView::merged_mode(parent, child)
            == child,
        !parent.exceeds(RouteView::merged_mode(parent, child)),
        !child.exceeds(RouteView::merged_mode(parent, child)),
{
}

/// The methods of a nested route are the union of the parent's and the
/// child's: which of the two comes first does not matter, and a method that
/// both have counts once.
pub proof fn lemma_methods_merge(parent: RouteView, child: RouteView)
    ensures
        parent.nest(child).methods == parent.methods.union(child.methods),
        parent.nest(child).methods == child.nest(parent).methods,
        parent.nest(parent).methods == parent.methods,
        forall|method: Method|
            parent.nest(child).methods.contains(method) <==> parent.methods.contains(method)
                || child.methods.contains(method),
{
    assert(parent.methods.union(child.methods) =~= child.methods.union(parent.methods));
    assert(parent.methods.union(parent.methods) =~= parent.methods);
}

} // verus!
