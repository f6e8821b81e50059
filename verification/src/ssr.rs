//! Rendering modes of a route and the order in which they stand.

use std::cmp::Ordering;
use vstd::prelude::*;
use vstd::std_specs::cmp::PartialOrdSpecImpl;

verus! {

/// Stands for the hook by which an application renders a static route anew.
/// The library never looks inside: it carries the token along and compares
/// it, and the application finds its hook again by it.
#[derive(Clone, Copy, Debug, PartialEq, Eq, Hash, Structural)]
pub struct Regeneration(pub u64);

/// What a statically rendered route carries.
#[derive(Clone, Copy, Debug, PartialEq, Eq, Hash, Structural)]
pub struct StaticRoute {
    pub regenerate: Option<Regeneration>,
}

impl StaticRoute {
    /// A static route that is never rendered anew.
    pub fn new() -> (route: Self)
        ensures
            route.regenerate is None,
    {
        StaticRoute { regenerate: None }
    }

    /// The same static route, rendered anew as `regenerate` says.
    pub fn regenerate(self, regenerate: Regeneration) -> (route: Self)
        ensures
            route.regenerate == Some(regenerate),
    {
        StaticRoute { regenerate: Some(regenerate) }
    }
}

/// How a route is rendered on the server.
#[derive(Clone, Copy, Debug, PartialEq, Eq, Hash, Structural)]
pub enum SsrMode {
    OutOfOrder,
    PartiallyBlocked,
    InOrder,
    Async,
    Static(StaticRoute),
}

impl Default for SsrMode {
    fn default() -> (mode: Self)
        ensures
            mode == SsrMode::OutOfOrder,
    {
        SsrMode::OutOfOrder
    }
}

impl SsrMode {
    /// The place of the mode's variant in the order of the modes.
    pub open spec fn rank(self) -> int {
        match self {
            SsrMode::OutOfOrder => 0,
            SsrMode::PartiallyBlocked => 1,
            SsrMode::InOrder => 2,
            SsrMode::Async => 3,
            SsrMode::Static(_) => 4,
        }
    }

    /// Where a mode stands among those of its own variant: static routes
    /// without a regeneration hook come first, then those with one, by its
    /// token.
    pub open spec fn weight(self) -> int {
        match self {
            SsrMode::Static(StaticRoute { regenerate: Some(hook) }) => hook.0 as int + 1,
            _ => 0,
        }
    }

    /// The modes are in a total order: by variant first, and two static modes
    /// by what they carry. `self.exceeds(other)` says that `self` is strictly
    /// the greater.
    pub open spec fn exceeds(self, other: SsrMode) -> bool {
        self.rank() > other.rank() || (self.rank() == other.rank() && self.weight()
            > other.weight())
    }

    /// The regeneration hooks that the mode asks for: the one hook of a static
    /// mode that carries one, and none otherwise.
    pub open spec fn hooks(self) -> Seq<Regeneration> {
        match self {
            SsrMode::Static(StaticRoute { regenerate: Some(hook) }) => seq![hook],
            _ => Seq::empty(),
        }
    }

    fn level(&self) -> (level: u8)
        ensures
            level == self.rank(),
    {
        match self {
            SsrMode::OutOfOrder => 0,
            SsrMode::PartiallyBlocked => 1,
            SsrMode::InOrder => 2,
            SsrMode::Async => 3,
            SsrMode::Static(_) => 4,
        }
    }

    /// The regeneration hooks that a route in this mode asks for.
    pub fn regeneration(&self) -> (hooks: Vec<Regeneration>)
        ensures
            hooks@ == self.hooks(),
    {
        let mut hooks: Vec<Regeneration> = Vec::new();
        match self {
            SsrMode::Static(route) => match route.regenerate {
                None => {},
                Some(hook) => {
                    hooks.push(hook);
                },
            },
            _ => {},
        }
        assert(hooks@ =~= self.hooks());
        hooks
    }
}

impl PartialOrd for SsrMode {
    fn partial_cmp(&self, other: &SsrMode) -> (order: Option<Ordering>) {
        let mine = self.level();
        let theirs = other.level();
        if mine < theirs {
            Some(Ordering::Less)
        } else if mine > theirs {
            Some(Ordering::Greater)
        } else {
            match (self, other) {
                (SsrMode::Static(a), SsrMode::Static(b)) => match (a.regenerate, b.regenerate) {
                    (None, None) => Some(Ordering::Equal),
                    (None, Some(_)) => Some(Ordering::Less),
                    (Some(_), None) => Some(Ordering::Greater),
                    (Some(x), Some(y)) => if x.0 < y.0 {
                        Some(Ordering::Less)
                    } else if x.0 > y.0 {
                        Some(Ordering::Greater)
                    } else {
                        Some(Ordering::Equal)
                    },
                },
                _ => Some(Ordering::Equal),
            }
        }
    }
}

impl PartialOrdSpecImpl for SsrMode {
    open spec fn obeys_partial_cmp_spec() -> bool {
        true
    }

    open spec fn partial_cmp_spec(&self, other: &SsrMode) -> Option<Ordering> {
        if other.exceeds(*self) {
            Some(Ordering::Less)
        } else if self.exceeds(*other) {
            Some(Ordering::Greater)
        } else {
            Some(Ordering::Equal)
        }
    }
}

/// Of two different modes one exceeds the other, and never both.
pub proof fn lemma_mode_order_total(a: SsrMode, b: SsrMode)
    ensures
        a == b <==> !a.exceeds(b) && !b.exceeds(a),
        !(a.exceeds(b) && b.exceeds(a)),
{
}

/// The order of the modes is transitive.
pub proof fn lemma_mode_order_transitive(a: SsrMode, b: SsrMode, c: SsrMode)
    requires
        a.exceeds(b),
        b.exceeds(c),
    ensures
        a.exceeds(c),
{
}

} // verus!
