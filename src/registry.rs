use vstd::prelude::*;

verus! {

/// The registry of slots: it hands out identifiers that are dense, start at 0
/// and are each issued once.
pub struct SlotRegistry {
    next: usize,
}

impl SlotRegistry {
    /// The number of identifiers issued so far; also the width of a table
    /// built against this registry.
    pub closed spec fn count(&self) -> nat {
        self.next as nat
    }

    /// A registry that has issued no identifier.
    pub fn new() -> (r: Self)
        ensures
            r.count() == 0,
    {
        SlotRegistry { next: 0 }
    }

    /// The number of identifiers issued so far.
    pub fn len(&self) -> (r: usize)
        ensures
            r == self.count(),
    {
        self.next
    }

    /// Issues the next identifier.
    pub fn register(&mut self) -> (id: usize)
        requires
            old(self).count() < usize::MAX,
        ensures
            id == old(self).count(),
            final(self).count() == old(self).count() + 1,
    {
        let id = self.next;
        self.next = self.next + 1;
        id
    }
}

} // verus!
