use nested_route::ssr::{Regeneration, SsrMode, StaticRoute};
use std::cmp::Ordering;

fn plain_static() -> SsrMode {
    SsrMode::Static(StaticRoute::new())
}

fn static_with(token: u64) -> SsrMode {
    SsrMode::Static(StaticRoute::new().regenerate(Regeneration(token)))
}

#[test]
fn default_mode_is_out_of_order() {
    assert_eq!(SsrMode::default(), SsrMode::OutOfOrder);
}

#[test]
fn modes_stand_in_the_order_of_their_variants() {
    let modes = [
        SsrMode::OutOfOrder,
        SsrMode::PartiallyBlocked,
        SsrMode::InOrder,
        SsrMode::Async,
        plain_static(),
        static_with(0),
        static_with(1),
        static_with(u64::MAX),
    ];
    for (i, a) in modes.iter().enumerate() {
        for (j, b) in modes.iter().enumerate() {
            assert_eq!(a < b, i < j);
            assert_eq!(a > b, i > j);
            assert_eq!(a <= b, i <= j);
            assert_eq!(a >= b, i >= j);
            assert_eq!(a == b, i == j);
        }
    }
}

#[test]
fn static_exceeds_every_other_variant() {
    for other in [SsrMode::OutOfOrder, SsrMode::PartiallyBlocked, SsrMode::InOrder, SsrMode::Async] {
        assert!(plain_static() > other);
        assert!(static_with(3) > other);
    }
}

#[test]
fn static_with_a_hook_exceeds_static_without() {
    assert!(static_with(0) > plain_static());
    assert!(!(plain_static() > static_with(0)));
    assert!(!(plain_static() > plain_static()));
}

#[test]
fn partial_cmp_tells_the_three_cases_apart() {
    assert_eq!(SsrMode::Async.partial_cmp(&SsrMode::InOrder), Some(Ordering::Greater));
    assert_eq!(SsrMode::InOrder.partial_cmp(&SsrMode::Async), Some(Ordering::Less));
    assert_eq!(static_with(7).partial_cmp(&static_with(7)), Some(Ordering::Equal));
    assert_eq!(static_with(7).partial_cmp(&static_with(8)), Some(Ordering::Less));
}

#[test]
fn only_a_static_mode_with_a_hook_asks_for_regeneration() {
    assert!(SsrMode::OutOfOrder.regeneration().is_empty());
    assert!(SsrMode::PartiallyBlocked.regeneration().is_empty());
    assert!(SsrMode::InOrder.regeneration().is_empty());
    assert!(SsrMode::Async.regeneration().is_empty());
    assert!(plain_static().regeneration().is_empty());
    assert_eq!(static_with(9).regeneration(), vec![Regeneration(9)]);
}

#[test]
fn static_route_builder() {
    assert_eq!(StaticRoute::new().regenerate, None);
    assert_eq!(
        StaticRoute::new().regenerate(Regeneration(1)).regenerate(Regeneration(2)).regenerate,
        Some(Regeneration(2))
    );
}
