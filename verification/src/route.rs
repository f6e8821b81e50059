//! The concrete routes that come out when a tree of route nodes is listed.

use crate::method::{Method, MethodSet};
use crate::segment::{PathSegment, SegmentView};
use crate::ssr::{Regeneration, SsrMode};
use vstd::prelude::*;

verus! {

/// One concrete route of a tree: the segments of its path from the root down,
/// and what the nodes along that path say of methods and rendering.
#[derive(Debug, PartialEq, Eq)]
pub struct GeneratedRouteData {
    pub segments: Vec<PathSegment>,
    pub ssr_mode: SsrMode,
    pub methods: MethodSet,
    pub regenerate: Vec<Regeneration>,
}

/// A concrete route as mathematical values.
pub ghost struct RouteView {
    pub segments: Seq<SegmentView>,
    pub ssr_mode: SsrMode,
    pub methods: Set<Method>,
    pub regenerate: Seq<Regeneration>,
}

impl RouteView {
    /// The route of a node that stands alone: its regeneration hooks are those
    /// that its rendering mode asks for.
    pub open spec fn own(segments: Seq<SegmentView>, ssr_mode: SsrMode, methods: Set<Method>)
        -> RouteView {
        RouteView { segments, ssr_mode, methods, regenerate: ssr_mode.hooks() }
    }

    /// The rendering mode of a child's route under a parent: the child's where
    /// it strictly exceeds the parent's, and the parent's otherwise.
    pub open spec fn merged_mode(parent: SsrMode, child: SsrMode) -> SsrMode {
        if child.exceeds(parent) {
            child
        } else {
            parent
        }
    }

    /// The route `child` as it stands under the parent route `self`: segments
    /// and regeneration hooks of the parent come first, the methods of both
    /// are put together, and the rendering mode is the merged one.
    pub open spec fn nest(self, child: RouteView) -> RouteView {
        RouteView {
            segments: self.segments + child.segments,
            ssr_mode: Self::merged_mode(self.ssr_mode, child.ssr_mode),
            methods: self.methods.union(child.methods),
            regenerate: self.regenerate + child.regenerate,
        }
    }
}

impl View for GeneratedRouteData {
    type V = RouteView;

    open spec fn view(&self) -> RouteView {
        RouteView {
            segments: self.segments.deep_view(),
            ssr_mode: self.ssr_mode,
            methods: self.methods@,
            regenerate: self.regenerate@,
        }
    }
}

impl DeepView for GeneratedRouteData {
    type V = RouteView;

    open spec fn deep_view(&self) -> RouteView {
        self@
    }
}

/// A copy of `segments`, segment by segment.
pub fn clone_segments(segments: &Vec<PathSegment>) -> (copy: Vec<PathSegment>)
    ensures
        copy.deep_view() == segments.deep_view(),
{
    let mut copy: Vec<PathSegment> = Vec::new();
    let mut at: usize = 0;
    while at < segments.len()
        invariant
            at <= segments.len(),
            copy.len() == at,
            forall|i: int| 0 <= i < at ==> copy[i]@ == segments[i]@,
        decreases segments.len() - at,
    {
        copy.push(segments[at].clone());
        at = at + 1;
    }
    assert(copy.deep_view() =~= segments.deep_view());
    copy
}

impl Clone for GeneratedRouteData {
    fn clone(&self) -> (copy: Self)
        ensures
            copy@ == self@,
    {
        GeneratedRouteData {
            segments: clone_segments(&self.segments),
            ssr_mode: self.ssr_mode,
            methods: self.methods,
            regenerate: self.regenerate.clone(),
        }
    }
}

impl Default for GeneratedRouteData {
    /// A route without segments, methods or hooks, in the default mode.
    fn default() -> (route: Self)
        ensures
            route@ == (RouteView {
                segments: Seq::empty(),
                ssr_mode: SsrMode::OutOfOrder,
                methods: Set::empty(),
                regenerate: Seq::empty(),
            }),
    {
        let route = GeneratedRouteData {
            segments: Vec::new(),
            ssr_mode: SsrMode::default(),
            methods: MethodSet::new(),
            regenerate: Vec::new(),
        };
        assert(route.segments.deep_view() =~= Seq::<SegmentView>::empty());
        route
    }
}

impl GeneratedRouteData {
    /// The route of a node that stands alone, with the regeneration hooks
    /// that its rendering mode asks for.
    pub fn own(segments: Vec<PathSegment>, ssr_mode: SsrMode, methods: MethodSet) -> (route: Self)
        ensures
            route@ == RouteView::own(segments.deep_view(), ssr_mode, methods@),
    {
        let regenerate = ssr_mode.regeneration();
        GeneratedRouteData { segments, ssr_mode, methods, regenerate }
    }

    /// The route `child` as it stands under the parent route `self`.
    ///
    /// The merged rendering mode is the child's only where that is strictly
    /// greater than the parent's; where the two are equal, the parent's stays.
    pub fn nest(&self, child: GeneratedRouteData) -> (route: Self)
        ensures
            route@ == self@.nest(child@),
    {
        let GeneratedRouteData {
            segments: mut child_segments,
            ssr_mode: child_mode,
            methods: child_methods,
            regenerate: mut child_regenerate,
        } = child;
        let ghost child_view = child_segments.deep_view();
        let mut segments = clone_segments(&self.segments);
        segments.append(&mut child_segments);
        assert(segments.deep_view() =~= self.segments.deep_view() + child_view);

        let mut methods = self.methods;
        methods.extend(child_methods);

        let mut regenerate = self.regenerate.clone();
        regenerate.append(&mut child_regenerate);

        if child_mode > self.ssr_mode {
            GeneratedRouteData { segments, ssr_mode: child_mode, methods, regenerate }
        } else {
            GeneratedRouteData { segments, ssr_mode: self.ssr_mode, methods, regenerate }
        }
    }
}

} // verus!
