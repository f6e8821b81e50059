use nested_route::method::{Method, MethodSet};

#[test]
fn default_method_is_get() {
    assert_eq!(Method::default(), Method::Get);
}

#[test]
fn new_set_is_empty() {
    let set = MethodSet::new();
    assert!(set.is_empty());
    assert_eq!(set.len(), 0);
    assert!(!set.contains(Method::Get));
}

#[test]
fn only_holds_one_method() {
    let set = MethodSet::only(Method::Put);
    assert!(!set.is_empty());
    assert_eq!(set.len(), 1);
    assert!(set.contains(Method::Put));
    assert!(!set.contains(Method::Get));
    assert!(!set.contains(Method::Post));
    assert!(!set.contains(Method::Delete));
    assert!(!set.contains(Method::Patch));
}

#[test]
fn insert_says_whether_the_method_was_new() {
    let mut set = MethodSet::new();
    assert!(set.insert(Method::Delete));
    assert!(!set.insert(Method::Delete));
    assert!(set.insert(Method::Patch));
    assert_eq!(set.len(), 2);
    assert!(set.contains(Method::Delete));
    assert!(set.contains(Method::Patch));
}

#[test]
fn all_five_methods_fit() {
    let mut set = MethodSet::new();
    for method in [Method::Get, Method::Post, Method::Put, Method::Delete, Method::Patch] {
        assert!(set.insert(method));
    }
    assert_eq!(set.len(), 5);
}

#[test]
fn get_with_get_and_post_is_get_and_post() {
    let mut parent = MethodSet::only(Method::Get);
    let mut child = MethodSet::only(Method::Get);
    child.insert(Method::Post);

    parent.extend(child);

    assert_eq!(parent.len(), 2);
    assert!(parent.contains(Method::Get));
    assert!(parent.contains(Method::Post));
    assert_eq!(parent, child);
}

#[test]
fn union_does_not_depend_on_the_order() {
    let mut a = MethodSet::only(Method::Get);
    a.insert(Method::Put);
    let mut b = MethodSet::only(Method::Post);
    b.insert(Method::Put);

    let mut a_then_b = a;
    a_then_b.extend(b);
    let mut b_then_a = b;
    b_then_a.extend(a);

    assert_eq!(a_then_b, b_then_a);
    assert_eq!(a_then_b.len(), 3);
}

#[test]
fn union_with_itself_changes_nothing() {
    let mut set = MethodSet::only(Method::Get);
    set.insert(Method::Patch);
    let before = set;
    set.extend(before);
    assert_eq!(set, before);
}

#[test]
fn sets_are_equal_whatever_the_order_of_insertion() {
    let mut a = MethodSet::new();
    a.insert(Method::Get);
    a.insert(Method::Post);
    let mut b = MethodSet::new();
    b.insert(Method::Post);
    b.insert(Method::Get);
    b.insert(Method::Post);
    assert_eq!(a, b);
    assert_ne!(a, MethodSet::only(Method::Get));
}
