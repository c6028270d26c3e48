//! The identifier counter: the sequence from which a registry takes the
//! identifiers of the records it mints.

use vstd::prelude::*;

verus! {

/// A monotonic generator of identifiers. It starts at 1, hands out its current
/// value and advances by exactly one in a single step, and never goes back.
/// Its view is the identifier that it will hand out next.
#[derive(Debug)]
pub struct IdentifierCounter {
    next: i32,
}

impl View for IdentifierCounter {
    type V = int;

    closed spec fn view(&self) -> int {
        self.next as int
    }
}

impl IdentifierCounter {
    #[verifier::type_invariant]
    spec fn starts_at_one(&self) -> bool {
        self.next >= 1
    }

    /// A counter that has handed out nothing: its first identifier is 1.
    pub fn new() -> (counter: Self)
        ensures
            counter@ == 1,
    {
        IdentifierCounter { next: 1 }
    }

    /// A counter that goes on from a stored position: `next` is the identifier
    /// that it hands out first. A position below 1 is none that a counter can
    /// have reached, and gives `None`.
    pub fn resume(next: i32) -> (counter: Option<Self>)
        ensures
            next >= 1 ==> counter is Some && counter->Some_0@ == next,
            next < 1 ==> counter is None,
    {
        if next >= 1 {
            Some(IdentifierCounter { next })
        } else {
            None
        }
    }

    /// The identifier that the counter will hand out next.
    pub fn next(&self) -> (next: i32)
        ensures
            next as int == self@,
            next >= 1,
    {
        proof {
            use_type_invariant(self);
        }
        self.next
    }

    /// Whether the counter has reached the largest value that it can hold, so
    /// that it cannot hand out another identifier.
    pub fn exhausted(&self) -> (exhausted: bool)
        ensures
            exhausted == (self@ >= i32::MAX),
    {
        self.next == i32::MAX
    }

    /// Hands out the next identifier and advances by one, in one step.
    pub fn allocate(&mut self) -> (id: i32)
        requires
            old(self)@ < i32::MAX,
        ensures
            id as int == old(self)@,
            final(self)@ == old(self)@ + 1,
            id >= 1,
    {
        proof {
            use_type_invariant(&*self);
        }
        let id: i32 = self.next;
        self.next = id + 1;
        id
    }
}

} // verus!
