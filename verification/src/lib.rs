//! Nested route trees: matching a path against a tree of route nodes, and
//! listing the concrete routes that a tree stands for.
//!
//! A tree is built from [`nested::NestedRoute`] nodes. Each node holds a
//! segment matcher ([`segment::PossibleRouteMatch`]) and at most one subtree
//! ([`matching::MatchNestedRoutes`]). Matching walks the tree from the top
//! and succeeds only where the nodes together take the whole path; listing
//! merges methods, rendering modes and regeneration hooks along the way down.
//! What holds of every tree is proved in [`laws`].

pub mod ids;
pub mod laws;
pub mod matchers;
pub mod matching;
pub mod method;
pub mod nested;
pub mod route;
pub mod segment;
pub mod ssr;
