//! Request identifiers: a counter that hands every request entering the
//! proxy its own number.

use vstd::prelude::*;

verus! {

/// Number of distinct identifiers: after this many the counter starts over.
pub open spec fn id_space() -> nat {
    0x1_0000_0000_0000_0000
}

/// The identifier handed out after `issued` earlier ones by a counter that
/// started at `start`.
pub open spec fn id_after(start: u64, issued: nat) -> u64 {
    ((start as nat + issued) % id_space()) as u64
}

/// The identifier that follows `id`.
pub open spec fn following(id: u64) -> u64 {
    if id == u64::MAX {
        0
    } else {
        (id + 1) as u64
    }
}

/// The counter behind request identifiers. Identifiers are dense: each is
/// one more than the one before, wrapping around at the end of the range.
#[derive(Debug)]
pub struct RequestIdCounter {
    next: u64,
}

impl View for RequestIdCounter {
    type V = u64;

    /// The identifier the next request receives.
    closed spec fn view(&self) -> u64 {
        self.next
    }
}

impl RequestIdCounter {
    /// A counter whose first identifier is 0.
    pub fn new() -> (counter: Self)
        ensures
            counter@ == 0,
    {
        RequestIdCounter { next: 0 }
    }

    /// Hands out the next identifier. The counter moves on by one and starts
    /// over at 0 after the largest identifier.
    pub fn next_id(&mut self) -> (id: u64)
        ensures
            id == old(self)@,
            final(self)@ == following(old(self)@),
    {
        let id = self.next;
        self.next = if id == u64::MAX {
            0
        } else {
            id + 1
        };
        id
    }
}

/// Handing out identifiers one by one walks through [`id_after`]: the first
/// identifier is the one the counter stands at, and each further one follows
/// the one before.
pub proof fn lemma_id_after_step(start: u64, issued: nat)
    ensures
        id_after(start, 0) == start,
        id_after(start, issued + 1) == following(id_after(start, issued)),
{
    let n = id_space();
    let a = start as nat + issued;
    assert((a + 1) % n == if a % n == n - 1 { 0 } else { a % n + 1 }) by (nonlinear_arith)
        requires
            n > 0,
    {
        assert(a == n * (a / n) + a % n);
        assert(a + 1 == n * (a / n) + (a % n + 1));
        if a % n == n - 1 {
            assert(a + 1 == n * (a / n + 1));
        }
    }
    let first = start as nat;
    assert(first % n == first) by (nonlinear_arith)
        requires
            first < n,
    ;
}

/// Identifiers are unique: two requests served by the same counter receive
/// different identifiers, as long as fewer than [`id_space`] requests lie
/// between them.
pub proof fn lemma_ids_distinct(start: u64, first: nat, second: nat)
    requires
        first < second,
        second - first < id_space(),
    ensures
        id_after(start, first) != id_after(start, second),
{
    let n = id_space();
    let a = start as nat + first;
    let b = start as nat + second;
    assert(a % n != b % n) by (nonlinear_arith)
        requires
            n > 0,
            a < b,
            b - a < n,
    {
        if a % n == b % n {
            assert(a == n * (a / n) + a % n);
            assert(b == n * (b / n) + b % n);
            assert(b - a == n * (b / n - a / n));
            assert(b / n - a / n >= 1 ==> n * (b / n - a / n) >= n);
            assert(b / n - a / n <= 0 ==> n * (b / n - a / n) <= 0);
        }
    }
}

} // verus!
