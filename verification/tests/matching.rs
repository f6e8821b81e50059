use nested_route::ids::{RouteIds, RouteMatchId};
use nested_route::matchers::{ParamSegment, StaticSegment};
use nested_route::matching::{MatchInterface, MatchNestedRoutes, MatchParams};
use nested_route::nested::{NestedMatch, NestedRoute};

fn pair(name: &str, value: &str) -> (String, String) {
    (name.to_string(), value.to_string())
}

#[test]
fn leaf_matches_its_whole_path() {
    let mut ids = RouteIds::new();
    let route = NestedRoute::new(StaticSegment("/users"), "users view", &mut ids);
    let (found, remaining) = route.match_nested("/users");
    let (id, found) = found.expect("the path is the segment");
    assert_eq!(id, RouteMatchId(1));
    assert_eq!(found.as_id(), RouteMatchId(1));
    assert_eq!(found.as_matched(), "/users");
    assert_eq!(remaining, "");
    assert!(found.to_params().is_empty());
    let (view, child) = found.into_view_and_child();
    assert_eq!(view, "users view");
    assert!(child.is_none());
}

#[test]
fn leaf_rejects_a_longer_path() {
    let mut ids = RouteIds::new();
    let route = NestedRoute::new(StaticSegment("/users"), (), &mut ids);
    let (found, remaining) = route.match_nested("/users/42");
    assert!(found.is_none());
    assert_eq!(remaining, "/users/42");
}

#[test]
fn leaf_rejects_what_its_matcher_rejects() {
    let mut ids = RouteIds::new();
    let route = NestedRoute::new(StaticSegment("/users"), (), &mut ids);
    let (found, remaining) = route.match_nested("/posts");
    assert!(found.is_none());
    assert_eq!(remaining, "/posts");
}

#[test]
fn leaf_lets_one_closing_slash_pass() {
    let mut ids = RouteIds::new();
    let route = NestedRoute::new(StaticSegment("/users"), (), &mut ids);
    let (found, remaining) = route.match_nested("/users/");
    let (_, found) = found.expect("one slash may be left");
    assert_eq!(found.as_matched(), "/users");
    assert_eq!(remaining, "/");

    let (found, remaining) = route.match_nested("/users//");
    assert!(found.is_none());
    assert_eq!(remaining, "/users//");
}

#[test]
fn matched_and_remaining_add_up_to_the_path() {
    let mut ids = RouteIds::new();
    let route = NestedRoute::new(ParamSegment("id"), (), &mut ids);
    for path in ["/42", "/42/", "/a-long-value"] {
        let (found, remaining) = route.match_nested(path);
        let (_, found) = found.expect("the node takes the whole path");
        assert_eq!(format!("{}{}", found.as_matched(), remaining), path);
    }
}

#[test]
fn child_reads_the_parameter() {
    let mut ids = RouteIds::new();
    let child = NestedRoute::new(ParamSegment("id"), "user", &mut ids);
    let route = NestedRoute::new(StaticSegment("/users"), "users", &mut ids).child(child);
    let (found, remaining) = route.match_nested("/users/42");
    let (id, found) = found.expect("parent and child take the whole path");
    assert_eq!(id, RouteMatchId(2));
    assert_eq!(found.as_id(), RouteMatchId(2));
    assert_eq!(remaining, "");
    assert_eq!(found.as_matched(), "/users");
    assert_eq!(found.to_params(), vec![pair("id", "42")]);
    let (view, below) = found.into_view_and_child();
    assert_eq!(view, "users");
    let below = below.expect("the child matched");
    assert_eq!(below.as_id(), RouteMatchId(1));
    assert_eq!(below.as_matched(), "/42");
    assert_eq!(below.to_params(), vec![pair("id", "42")]);
    let (view, none) = below.into_view_and_child();
    assert_eq!(view, "user");
    assert!(none.is_none());
}

#[test]
fn parent_fails_where_its_child_fails() {
    let mut ids = RouteIds::new();
    let child = NestedRoute::new(ParamSegment("id"), (), &mut ids);
    let route = NestedRoute::new(StaticSegment("/users"), (), &mut ids).child(child);

    // the parent's matcher takes "/users" by itself, but the child finds no value
    let (found, remaining) = route.match_nested("/users");
    assert!(found.is_none());
    assert_eq!(remaining, "/users");

    let (found, remaining) = route.match_nested("/users/");
    assert!(found.is_none());
    assert_eq!(remaining, "/users/");
}

#[test]
fn parent_fails_where_its_child_leaves_a_rest() {
    let mut ids = RouteIds::new();
    let child = NestedRoute::new(ParamSegment("id"), (), &mut ids);
    let route = NestedRoute::new(StaticSegment("/users"), (), &mut ids).child(child);
    let (found, remaining) = route.match_nested("/users/42/edit");
    assert!(found.is_none());
    assert_eq!(remaining, "/users/42/edit");
}

#[test]
fn parent_with_child_passes_on_the_closing_slash() {
    let mut ids = RouteIds::new();
    let child = NestedRoute::new(ParamSegment("id"), (), &mut ids);
    let route = NestedRoute::new(StaticSegment("/users"), (), &mut ids).child(child);
    let (found, remaining) = route.match_nested("/users/42/");
    assert!(found.is_some());
    assert_eq!(remaining, "/");
}

#[test]
fn params_of_the_parent_come_first() {
    let mut ids = RouteIds::new();
    let child = NestedRoute::new(ParamSegment("post"), (), &mut ids);
    let route = NestedRoute::new(ParamSegment("user"), (), &mut ids).child(child);
    let (found, _) = route.match_nested("/ada/7");
    let (_, found) = found.expect("two values");
    assert_eq!(found.to_params(), vec![pair("user", "ada"), pair("post", "7")]);
}

#[test]
fn params_of_three_levels_come_from_the_top_down() {
    let mut ids = RouteIds::new();
    let lowest = NestedRoute::new(ParamSegment("c"), 'c', &mut ids);
    let middle = NestedRoute::new(ParamSegment("b"), 'b', &mut ids).child(lowest);
    let route = NestedRoute::new(ParamSegment("a"), 'a', &mut ids).child(middle);
    let (found, remaining) = route.match_nested("/1/2/3");
    let (id, found) = found.expect("three values");
    assert_eq!(id, RouteMatchId(3));
    assert_eq!(remaining, "");
    assert_eq!(found.to_params(), vec![pair("a", "1"), pair("b", "2"), pair("c", "3")]);
    assert_eq!(found.as_matched(), "/1");

    let (view, middle) = found.into_view_and_child();
    assert_eq!(view, 'a');
    let middle = middle.expect("the middle node matched");
    assert_eq!(middle.as_id(), RouteMatchId(2));
    assert_eq!(middle.as_matched(), "/2");
    assert_eq!(middle.to_params(), vec![pair("b", "2"), pair("c", "3")]);

    let (view, lowest) = middle.into_view_and_child();
    assert_eq!(view, 'b');
    let lowest = lowest.expect("the lowest node matched");
    assert_eq!(lowest.as_id(), RouteMatchId(1));
    assert_eq!(lowest.as_matched(), "/3");
    assert_eq!(lowest.to_params(), vec![pair("c", "3")]);

    let (found, remaining) = route.match_nested("/1/2");
    assert!(found.is_none());
    assert_eq!(remaining, "/1/2");
}

#[test]
fn a_unit_child_takes_nothing() {
    let mut ids = RouteIds::new();
    let route = NestedRoute::new(StaticSegment("/users"), (), &mut ids).child(());
    let (found, remaining) = route.match_nested("/users");
    let (_, found) = found.expect("the unit child matches what is left");
    assert_eq!(remaining, "");
    assert!(found.to_params().is_empty());
    let (_, child) = found.into_view_and_child();
    assert_eq!(child, Some(()));

    let (found, remaining) = route.match_nested("/users/42");
    assert!(found.is_none());
    assert_eq!(remaining, "/users/42");
}

#[test]
fn the_unit_subtree_matches_every_path() {
    for path in ["", "/", "/users/42"] {
        let (found, remaining) = ().match_nested(path);
        assert_eq!(found, Some((RouteMatchId(0), ())));
        assert_eq!(remaining, path);
    }
    assert!(().to_params().is_empty());
    assert_eq!(().as_id(), RouteMatchId(0));
    assert_eq!(().as_matched(), "");
    assert_eq!(().into_view_and_child(), ((), None));
}

#[test]
fn resolve_matches_only_at_the_end() {
    let id = RouteMatchId(9);
    for remaining in ["", "/"] {
        let found = NestedMatch::<(), u8>::resolve(id, &3, "/a", Vec::new(), None, remaining);
        assert!(found.is_some());
    }
    for remaining in ["/b", "//", "b"] {
        let found = NestedMatch::<(), u8>::resolve(id, &3, "/a", Vec::new(), None, remaining);
        assert!(found.is_none());
    }
}

#[test]
fn resolve_puts_the_match_together() {
    let inner = NestedMatch::<(), char>::resolve(
        RouteMatchId(4),
        &'i',
        "/in",
        vec![pair("x", "1"), pair("y", "2")],
        None,
        "/",
    )
    .expect("at the end");
    let outer = NestedMatch::resolve(
        RouteMatchId(5),
        &'o',
        "/out",
        vec![pair("w", "0")],
        Some(inner),
        "/",
    )
    .expect("at the end");

    assert_eq!(outer.as_id(), RouteMatchId(5));
    assert_eq!(outer.as_matched(), "/out");
    assert_eq!(outer.to_params(), vec![pair("w", "0"), pair("x", "1"), pair("y", "2")]);
    let (view, inner) = outer.into_view_and_child();
    assert_eq!(view, 'o');
    let inner = inner.expect("the child was given");
    assert_eq!(inner.as_id(), RouteMatchId(4));
    assert_eq!(inner.as_matched(), "/in");
    assert_eq!(inner.to_params(), vec![pair("x", "1"), pair("y", "2")]);
}

#[test]
fn matches_with_the_same_parts_are_equal() {
    let make = |view: u8| {
        NestedMatch::<(), u8>::resolve(RouteMatchId(1), &view, "/a", vec![pair("k", "v")], None, "")
            .expect("at the end")
    };
    assert_eq!(make(1), make(1));
    assert_ne!(make(1), make(2));
}
