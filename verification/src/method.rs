//! Request methods and sets of them.

use vstd::prelude::*;

verus! {

/// An HTTP request method that a route may answer.
#[derive(Clone, Copy, Debug, PartialEq, Eq, Hash, Structural)]
pub enum Method {
    Get,
    Post,
    Put,
    Delete,
    Patch,
}

impl Default for Method {
    fn default() -> (method: Self)
        ensures
            method == Method::Get,
    {
        Method::Get
    }
}

/// A set of request methods. Two sets are equal when they hold the same
/// methods, whatever the order in which these were put in.
#[derive(Clone, Copy, Debug, PartialEq, Eq, Hash, Structural)]
pub struct MethodSet {
    get: bool,
    post: bool,
    put: bool,
    delete: bool,
    patch: bool,
}

impl View for MethodSet {
    type V = Set<Method>;

    closed spec fn view(&self) -> Set<Method> {
        Set::new(|method: Method| self.holds(method))
    }
}

impl MethodSet {
    spec fn holds(&self, method: Method) -> bool {
        match method {
            Method::Get => self.get,
            Method::Post => self.post,
            Method::Put => self.put,
            Method::Delete => self.delete,
            Method::Patch => self.patch,
        }
    }

    /// The set without any method.
    pub fn new() -> (set: Self)
        ensures
            set@ == Set::<Method>::empty(),
    {
        let set = MethodSet { get: false, post: false, put: false, delete: false, patch: false };
        assert(set@ =~= Set::<Method>::empty());
        set
    }

    /// The set that holds `method` and nothing else.
    pub fn only(method: Method) -> (set: Self)
        ensures
            set@ == Set::<Method>::empty().insert(method),
    {
        let mut set = MethodSet::new();
        set.insert(method);
        set
    }

    /// Whether `method` is in the set.
    pub fn contains(&self, method: Method) -> (found: bool)
        ensures
            found == self@.contains(method),
    {
        match method {
            Method::Get => self.get,
            Method::Post => self.post,
            Method::Put => self.put,
            Method::Delete => self.delete,
            Method::Patch => self.patch,
        }
    }

    /// Puts `method` into the set and says whether it was new to it.
    pub fn insert(&mut self, method: Method) -> (added: bool)
        ensures
            final(self)@ == old(self)@.insert(method),
            added == !old(self)@.contains(method),
    {
        let added = !self.contains(method);
        match method {
            Method::Get => {
                self.get = true;
            },
            Method::Post => {
                self.post = true;
            },
            Method::Put => {
                self.put = true;
            },
            Method::Delete => {
                self.delete = true;
            },
            Method::Patch => {
                self.patch = true;
            },
        }
        assert(self@ =~= old(self)@.insert(method));
        added
    }

    /// Puts every method of `other` into the set: afterwards it is the union
    /// of the two.
    pub fn extend(&mut self, other: MethodSet)
        ensures
            final(self)@ == old(self)@.union(other@),
    {
        self.get = self.get || other.get;
        self.post = self.post || other.post;
        self.put = self.put || other.put;
        self.delete = self.delete || other.delete;
        self.patch = self.patch || other.patch;
        assert(self@ =~= old(self)@.union(other@));
    }

    /// The number of methods in the set.
    pub fn len(&self) -> (count: usize)
        ensures
            self@.finite(),
            count == self@.len(),
    {
        let mut count: usize = 0;
        proof {
            lemma_view_finite(*self);
        }
        if self.get {
            count = count + 1;
        }
        if self.post {
            count = count + 1;
        }
        if self.put {
            count = count + 1;
        }
        if self.delete {
            count = count + 1;
        }
        if self.patch {
            count = count + 1;
        }
        count
    }

    /// Whether the set holds no method.
    pub fn is_empty(&self) -> (empty: bool)
        ensures
            empty == (self@ == Set::<Method>::empty()),
    {
        let empty = !self.get && !self.post && !self.put && !self.delete && !self.patch;
        proof {
            if empty {
                assert(self@ =~= Set::<Method>::empty());
            } else {
                assert(self@.contains(Method::Get) || self@.contains(Method::Post)
                    || self@.contains(Method::Put) || self@.contains(Method::Delete)
                    || self@.contains(Method::Patch));
            }
        }
        empty
    }
}

proof fn lemma_view_finite(set: MethodSet)
    ensures
        set@.finite(),
        set@.len() == (if set.get { 1nat } else { 0 }) + (if set.post { 1nat } else { 0 })
            + (if set.put { 1nat } else { 0 }) + (if set.delete { 1nat } else { 0 })
            + (if set.patch { 1nat } else { 0 }),
{
    let e = Set::<Method>::empty();
    let s1 = if set.get { e.insert(Method::Get) } else { e };
    let s2 = if set.post { s1.insert(Method::Post) } else { s1 };
    let s3 = if set.put { s2.insert(Method::Put) } else { s2 };
    let s4 = if set.delete { s3.insert(Method::Delete) } else { s3 };
    let s5 = if set.patch { s4.insert(Method::Patch) } else { s4 };
    assert(s5 =~= set@);
}

/// Two sets of methods that hold the same methods are the same value.
pub proof fn lemma_same_methods(a: MethodSet, b: MethodSet)
    requires
        a@ == b@,
    ensures
        a == b,
{
    assert(a.get == b.get) by {
        assert(a.holds(Method::Get) == a@.contains(Method::Get));
        assert(b.holds(Method::Get) == b@.contains(Method::Get));
    }
    assert(a.post == b.post) by {
        assert(a.holds(Method::Post) == a@.contains(Method::Post));
        assert(b.holds(Method::Post) == b@.contains(Method::Post));
    }
    assert(a.put == b.put) by {
        assert(a.holds(Method::Put) == a@.contains(Method::Put));
        assert(b.holds(Method::Put) == b@.contains(Method::Put));
    }
    assert(a.delete == b.delete) by {
        assert(a.holds(Method::Delete) == a@.contains(Method::Delete));
        assert(b.holds(Method::Delete) == b@.contains(Method::Delete));
    }
    assert(a.patch == b.patch) by {
        assert(a.holds(Method::Patch) == a@.contains(Method::Patch));
        assert(b.holds(Method::Patch) == b@.contains(Method::Patch));
    }
}

} // verus!
