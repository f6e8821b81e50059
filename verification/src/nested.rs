//! Route nodes that nest: a node with its segment matcher and, below it, at
//! most one subtree.

use crate::ids::{nth_id, RouteIds, RouteMatchId};
use crate::matching::{MatchInterface, MatchNestedRoutes, MatchParams};
use crate::method::{Method, MethodSet};
use crate::route::{GeneratedRouteData, RouteView};
use crate::segment::{
    at_end, is_at_end, ParamsView, PartialPathMatch, PathSegment, PossibleRouteMatch,
};
use crate::ssr::SsrMode;
use either_of::Either;
use vstd::prelude::*;
use vstd::pervasive::cloned;

verus! {

/// `either_of::Either`, the value that is one of two things. Verus reads the
/// two variants, `Left` and `Right`, from the definition in that crate, so
/// that verified code can build such a value and tell its sides apart;
/// nothing else is taken for granted of it.
#[verifier::external_type_specification]
#[verifier::reject_recursive_types(A)]
#[verifier::reject_recursive_types(B)]
pub struct ExEither<A, B>(either_of::Either<A, B>);

/// A node of a route tree.
#[derive(Debug, PartialEq, Eq)]
pub struct NestedRoute<Segments, Children, Data, ViewFn> {
    id: u16,
    segments: Segments,
    children: Option<Children>,
    data: Data,
    view: ViewFn,
    methods: MethodSet,
    ssr_mode: SsrMode,
}

/// What a route node holds.
pub ghost struct NestedRouteView<Segments, Children, Data, ViewFn> {
    pub id: u16,
    pub segments: Segments,
    pub children: Option<Children>,
    pub data: Data,
    pub view: ViewFn,
    pub methods: Set<Method>,
    pub ssr_mode: SsrMode,
}

impl<Segments, Children, Data, ViewFn> View for NestedRoute<Segments, Children, Data, ViewFn> {
    type V = NestedRouteView<Segments, Children, Data, ViewFn>;

    closed spec fn view(&self) -> Self::V {
        NestedRouteView {
            id: self.id,
            segments: self.segments,
            children: self.children,
            data: self.data,
            view: self.view,
            methods: self.methods@,
            ssr_mode: self.ssr_mode,
        }
    }
}

impl<Segments, ViewFn> NestedRoute<Segments, (), (), ViewFn> {
    /// A node without a child, which answers to `GET` and is rendered in the
    /// default mode. It takes the upcoming identifier of `ids`.
    pub fn new(path: Segments, view: ViewFn, ids: &mut RouteIds) -> (route: Self)
        ensures
            route@ == (NestedRouteView {
                id: old(ids).upcoming(),
                segments: path,
                children: None::<()>,
                data: (),
                view,
                methods: Set::<Method>::empty().insert(Method::Get),
                ssr_mode: SsrMode::OutOfOrder,
            }),
            final(ids).upcoming() == nth_id(old(ids).upcoming(), 1),
            forall|n: nat| #[trigger] final(ids).issued(n) == old(ids).issued(n + 1),
    {
        NestedRoute {
            id: ids.next_id(),
            segments: path,
            children: None,
            data: (),
            view,
            methods: MethodSet::only(Method::Get),
            ssr_mode: SsrMode::default(),
        }
    }
}

impl<Segments, Data, ViewFn> NestedRoute<Segments, (), Data, ViewFn> {
    /// The same node with `child` as the subtree below it. A node that has
    /// its child is of another type, so that it cannot be given a second one.
    pub fn child<Children>(self, child: Children) -> (route: NestedRoute<
        Segments,
        Children,
        Data,
        ViewFn,
    >)
        ensures
            route@ == (NestedRouteView {
                id: self@.id,
                segments: self@.segments,
                children: Some(child),
                data: self@.data,
                view: self@.view,
                methods: self@.methods,
                ssr_mode: self@.ssr_mode,
            }),
    {
        let NestedRoute { id, segments, children: _, data, view, methods, ssr_mode } = self;
        NestedRoute { id, segments, children: Some(child), data, view, ssr_mode, methods }
    }

    /// The same node, rendered in `ssr_mode`.
    pub fn ssr_mode(self, ssr_mode: SsrMode) -> (route: Self)
        ensures
            route@ == (NestedRouteView { ssr_mode, ..self@ }),
    {
        let mut route = self;
        route.ssr_mode = ssr_mode;
        route
    }
}

impl<Segments: Clone, Children: Clone, Data: Clone, ViewFn: Clone> Clone for NestedRoute<
    Segments,
    Children,
    Data,
    ViewFn,
> {
    /// A copy of the node, under the same identifier: matcher, child, data
    /// and view are each cloned.
    fn clone(&self) -> (copy: Self)
        ensures
            copy@.id == self@.id,
            cloned(self@.segments, copy@.segments),
            match self@.children {
                None => copy@.children is None,
                Some(children) => copy@.children matches Some(other) && cloned(children, other),
            },
            cloned(self@.data, copy@.data),
            cloned(self@.view, copy@.view),
            copy@.methods == self@.methods,
            copy@.ssr_mode == self@.ssr_mode,
    {
        NestedRoute {
            id: self.id,
            segments: self.segments.clone(),
            children: self.children.clone(),
            data: self.data.clone(),
            view: self.view.clone(),
            methods: self.methods,
            ssr_mode: self.ssr_mode,
        }
    }
}

/// A match of a route node: what the node itself matched, the parameters of
/// the node and of the nodes below it, and the match of its child.
#[derive(Debug, PartialEq, Eq)]
pub struct NestedMatch<Child, ViewFn> {
    id: RouteMatchId,
    matched: String,
    params: Vec<(String, String)>,
    child: Option<Child>,
    view_fn: ViewFn,
}

/// What a match of a route node holds.
pub ghost struct NestedMatchView<Child, ViewFn> {
    pub id: RouteMatchId,
    pub matched: Seq<char>,
    pub params: ParamsView,
    pub child: Option<Child>,
    pub view_fn: ViewFn,
}

impl<Child, ViewFn> View for NestedMatch<Child, ViewFn> {
    type V = NestedMatchView<Child, ViewFn>;

    closed spec fn view(&self) -> Self::V {
        NestedMatchView {
            id: self.id,
            matched: self.matched@,
            params: self.params.deep_view(),
            child: self.child,
            view_fn: self.view_fn,
        }
    }
}

/// A copy of `params`, pair by pair.
pub fn clone_params(params: &Vec<(String, String)>) -> (copy: Vec<(String, String)>)
    ensures
        copy.deep_view() == params.deep_view(),
{
    let mut copy: Vec<(String, String)> = Vec::new();
    let mut at: usize = 0;
    while at < params.len()
        invariant
            at <= params.len(),
            copy.len() == at,
            forall|i: int| 0 <= i < at ==> copy[i].deep_view() == params[i].deep_view(),
        decreases params.len() - at,
    {
        let pair = &params[at];
        copy.push((pair.0.clone(), pair.1.clone()));
        at = at + 1;
    }
    assert(copy.deep_view() =~= params.deep_view());
    copy
}

impl<Child, ViewFn> MatchParams for NestedMatch<Child, ViewFn> {
    open spec fn params(&self) -> ParamsView {
        self@.params
    }

    fn to_params(&self) -> (params: Vec<(String, String)>) {
        clone_params(&self.params)
    }
}

impl<Child, ViewFn> MatchInterface for NestedMatch<Child, ViewFn> {
    type Child = Child;

    type ViewFn = ViewFn;

    fn as_id(&self) -> (id: RouteMatchId)
        ensures
            id == self@.id,
    {
        self.id
    }

    fn as_matched(&self) -> (matched: &str)
        ensures
            matched@ == self@.matched,
    {
        self.matched.as_str()
    }

    fn into_view_and_child(self) -> (parts: (ViewFn, Option<Child>))
        ensures
            parts.0 == self@.view_fn,
            parts.1 == self@.child,
    {
        (self.view_fn, self.child)
    }
}

/// The parameters that the match of a child adds to those of its parent: its
/// own, and none where there is no child.
pub open spec fn child_params<Child: MatchParams>(child: Option<Child>) -> ParamsView {
    match child {
        None => Seq::empty(),
        Some(inner) => inner.params(),
    }
}

impl<Child: MatchParams, ViewFn: Clone> NestedMatch<Child, ViewFn> {
    /// Makes the match of a node out of what its segment matcher found
    /// (`matched` and `params`) and of what its subtree made of the rest:
    /// `child` is the subtree's match, and `remaining` what is still left of
    /// the path.
    ///
    /// The node matches only where the path is at its end; its parameters
    /// are its own, followed by those of the child.
    pub fn resolve(
        id: RouteMatchId,
        view: &ViewFn,
        matched: &str,
        params: Vec<(String, String)>,
        child: Option<Child>,
        remaining: &str,
    ) -> (found: Option<Self>)
        ensures
            found is Some <==> at_end(remaining@),
            found matches Some(it) ==> {
                &&& it@.id == id
                &&& it@.matched == matched@
                &&& it@.params == params.deep_view() + child_params(child)
                &&& it@.child == child
                &&& cloned(*view, it@.view_fn)
            },
    {
        let mut inner_params = match &child {
            None => Vec::new(),
            Some(inner) => inner.to_params(),
        };
        if is_at_end(remaining) {
            let mut params = params;
            let ghost own = params.deep_view();
            let ghost below = inner_params.deep_view();
            assert(below =~= child_params(child));
            params.append(&mut inner_params);
            assert(params.deep_view() =~= own + below);
            Some(
                NestedMatch {
                    id,
                    matched: matched.to_string(),
                    params,
                    child,
                    view_fn: view.clone(),
                },
            )
        } else {
            None
        }
    }
}

/// The routes of a subtree, each as it stands under the parent route `own`.
pub fn nest_all(own: &GeneratedRouteData, children: Vec<GeneratedRouteData>) -> (routes: Vec<
    GeneratedRouteData,
>)
    ensures
        routes.deep_view() == children.deep_view().map_values(|child: RouteView| own@.nest(child)),
{
    let ghost below = children.deep_view();
    let ghost given = children@;
    let mut routes: Vec<GeneratedRouteData> = Vec::new();
    for child in rest: children.into_iter()
        invariant
            rest.seq() == given,
            below.len() == given.len(),
            forall|i: int| 0 <= i < given.len() ==> given[i]@ == below[i],
            routes.len() == rest.index(),
            forall|i: int| 0 <= i < routes.len() ==> routes[i]@ == own@.nest(below[i]),
    {
        routes.push(own.nest(child));
    }
    assert(routes.deep_view() =~= below.map_values(|child: RouteView| own@.nest(child)));
    routes
}

impl<Segments, Children, Data, ViewFn> NestedRoute<Segments, Children, Data, ViewFn> where
    Segments: PossibleRouteMatch,
    Children: MatchNestedRoutes,
    ViewFn: Clone,
 {
    /// The route that the node stands for by itself: the segments of its
    /// matcher, its methods and its rendering mode.
    pub open spec fn own_route(&self) -> RouteView {
        RouteView::own(self@.segments.segments(), self@.ssr_mode, self@.methods)
    }

    /// The routes of the node, told apart by where they come from: on the
    /// left the one route of a node without a child, on the right the routes
    /// of its child, each nested under the node's own.
    pub fn listed_routes(&self) -> (listed: Either<GeneratedRouteData, Vec<GeneratedRouteData>>)
        ensures
            self@.children is None ==> (listed matches Either::Left(own) && own@
                == self.own_route()),
            self@.children is Some ==> (listed matches Either::Right(nested)
                && nested.deep_view() == self.routes()),
    {
        let mut segment_routes: Vec<PathSegment> = Vec::new();
        self.segments.generate_path(&mut segment_routes);
        assert(segment_routes.deep_view() =~= self.segments.segments());
        let own = GeneratedRouteData::own(segment_routes, self.ssr_mode, self.methods);
        match &self.children {
            None => Either::Left(own),
            Some(children) => Either::Right(nest_all(&own, children.generate_routes())),
        }
    }
}

impl<Segments, Children, Data, ViewFn> MatchNestedRoutes for NestedRoute<
    Segments,
    Children,
    Data,
    ViewFn,
> where Segments: PossibleRouteMatch, Children: MatchNestedRoutes, ViewFn: Clone {
    type Data = Data;

    type Match = NestedMatch<Children::Match, ViewFn>;

    /// A node matches a path where its matcher finds its part at the start
    /// and the rest is at its end, once the child, if there is one, has
    /// matched its own part of it.
    open spec fn matches(&self, path: Seq<char>) -> bool {
        match self@.segments.found(path) {
            None => false,
            Some(part) => match self@.children {
                None => at_end(part.remaining),
                Some(children) => children.matches(part.remaining) && at_end(
                    children.remaining(part.remaining),
                ),
            },
        }
    }

    /// The node itself answers for its matches, not a node below it.
    open spec fn match_id(&self, path: Seq<char>) -> RouteMatchId {
        RouteMatchId(self@.id)
    }

    /// What the match of a node holds: the node's identifier, the part of
    /// the path that its own matcher matched, a clone of its view, the match
    /// of its child, and the parameters of its matcher followed by those of
    /// the child's match.
    open spec fn is_match(&self, path: Seq<char>, found: Self::Match) -> bool {
        match self@.segments.found(path) {
            None => false,
            Some(part) => {
                &&& found@.id == RouteMatchId(self@.id)
                &&& found@.matched == part.matched
                &&& cloned(self@.view, found@.view_fn)
                &&& match self@.children {
                    None => found@.child is None && found@.params == part.params,
                    Some(children) => {
                        &&& found@.child matches Some(inner)
                        &&& children.is_match(part.remaining, inner)
                        &&& found@.params == part.params + inner.params()
                    },
                }
            },
        }
    }

    /// What is left of the path: what the child left, or, without a child,
    /// what the node's matcher left.
    open spec fn remaining(&self, path: Seq<char>) -> Seq<char> {
        match self@.segments.found(path) {
            None => path,
            Some(part) => match self@.children {
                None => part.remaining,
                Some(children) => children.remaining(part.remaining),
            },
        }
    }

    /// The node's own route where it has no child, and otherwise the routes
    /// of its child in their order, each nested under the node's own.
    open spec fn routes(&self) -> Seq<RouteView> {
        match self@.children {
            None => seq![self.own_route()],
            Some(children) => children.routes().map_values(
                |child: RouteView| self.own_route().nest(child),
            ),
        }
    }

    fn match_nested<'a>(&'a self, path: &'a str) -> (outcome: (
        Option<(RouteMatchId, Self::Match)>,
        &'a str,
    )) {
        let part = match self.segments.test(path) {
            None => {
                return (None, path);
            },
            Some(part) => part,
        };
        let PartialPathMatch { remaining, params, matched } = part;
        let (inner, remaining) = match &self.children {
            None => (None, remaining),
            Some(children) => {
                let (inner, remaining) = children.match_nested(remaining);
                match inner {
                    None => {
                        return (None, path);
                    },
                    Some((_, inner)) => (Some(inner), remaining),
                }
            },
        };
        let id = RouteMatchId(self.id);
        match NestedMatch::resolve(id, &self.view, matched, params, inner, remaining) {
            None => (None, path),
            Some(found) => (Some((id, found)), remaining),
        }
    }

    fn generate_routes(&self) -> (routes: Vec<GeneratedRouteData>) {
        match self.listed_routes() {
            Either::Left(own) => {
                let mut routes: Vec<GeneratedRouteData> = Vec::new();
                routes.push(own);
                assert(routes.deep_view() =~= seq![own@]);
                routes
            },
            Either::Right(nested) => nested,
        }
    }
}

} // verus!
