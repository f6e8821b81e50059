//! Identifiers of route nodes and the counter that issues them.

use vstd::prelude::*;

verus! {

/// Identifies the route node that answered for a match.
#[derive(Clone, Copy, Debug, PartialEq, Eq, Hash, Structural)]
pub struct RouteMatchId(pub u16);

/// The identifier that a counter standing at `start` issues after `n` earlier
/// ones: the counter goes up by one with each identifier and wraps round after
/// `u16::MAX`.
pub open spec fn nth_id(start: u16, n: nat) -> u16 {
    ((start as int + n as int) % 0x1_0000) as u16
}

/// The counter from which route nodes take their identifiers. An application
/// keeps one for its whole lifetime, so that no two of its nodes share an
/// identifier.
#[derive(Debug)]
pub struct RouteIds {
    next: u16,
}

impl RouteIds {
    /// The identifier that the next call of `next_id` returns.
    pub closed spec fn upcoming(&self) -> u16 {
        self.next
    }

    /// The identifier that is issued after `n` earlier calls of `next_id`.
    pub open spec fn issued(&self, n: nat) -> u16 {
        nth_id(self.upcoming(), n)
    }

    /// A counter at its start: the first identifier is 1.
    pub fn new() -> (ids: Self)
        ensures
            ids.upcoming() == 1,
    {
        RouteIds { next: 1 }
    }

    /// Issues the upcoming identifier and moves the counter on by one.
    pub fn next_id(&mut self) -> (id: u16)
        ensures
            id == old(self).upcoming(),
            final(self).upcoming() == nth_id(old(self).upcoming(), 1),
            forall|n: nat| #[trigger] final(self).issued(n) == old(self).issued(n + 1),
    {
        let id: u16 = self.next;
        self.next = id.wrapping_add(1);
        proof {
            assert forall|n: nat| #[trigger] nth_id(self.next, n) == nth_id(id, n + 1) by {
                lemma_nth_id_shift(id, n);
            }
        }
        id
    }
}

impl Default for RouteIds {
    fn default() -> (ids: Self)
        ensures
            ids.upcoming() == 1,
    {
        RouteIds::new()
    }
}

proof fn lemma_nth_id_shift(start: u16, n: nat)
    ensures
        nth_id(nth_id(start, 1), n) == nth_id(start, n + 1),
{
    let s: int = start as int;
    if s + 1 < 0x1_0000 {
        assert(nth_id(start, 1) == s + 1);
    } else {
        assert(nth_id(start, 1) == 0);
        assert((0 + n as int) % 0x1_0000 == (s + 1 + n as int) % 0x1_0000) by {
            vstd::arithmetic::div_mod::lemma_mod_add_multiples_vanish(n as int, 0x1_0000);
        }
    }
}

/// Identifiers are unique: two of the next 65536 identifiers that a counter
/// issues are never the same.
pub proof fn lemma_ids_distinct(ids: RouteIds, i: nat, j: nat)
    requires
        i < j,
        j - i < 0x1_0000,
    ensures
        ids.issued(i) != ids.issued(j),
{
    let s: int = ids.upcoming() as int;
    let a: int = s + i as int;
    let b: int = s + j as int;
    if a % 0x1_0000 == b % 0x1_0000 {
        vstd::arithmetic::div_mod::lemma_fundamental_div_mod(a, 0x1_0000);
        vstd::arithmetic::div_mod::lemma_fundamental_div_mod(b, 0x1_0000);
        let qa: int = a / 0x1_0000;
        let qb: int = b / 0x1_0000;
        assert(b - a == 0x1_0000 * (qb - qa)) by (nonlinear_arith)
            requires
                a == 0x1_0000 * qa + a % 0x1_0000,
                b == 0x1_0000 * qb + b % 0x1_0000,
                a % 0x1_0000 == b % 0x1_0000,
        ;
        assert(false) by (nonlinear_arith)
            requires
                b - a == 0x1_0000 * (qb - qa),
                0 < b - a < 0x1_0000,
        ;
    }
}

/// Identifiers go up: until the counter wraps round, a later identifier is
/// greater than an earlier one.
pub proof fn lemma_ids_increase(ids: RouteIds, i: nat, j: nat)
    requires
        i < j,
        ids.upcoming() + j <= u16::MAX,
    ensures
        ids.issued(i) < ids.issued(j),
{
}

} // verus!
