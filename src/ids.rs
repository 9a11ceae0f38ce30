use vstd::prelude::*;

verus! {

/// A bounded pool of session identifiers: `first_id()` up to, not including,
/// `first_id() + capacity()`. Each identifier is either in use or free.
pub struct IdAllocator {
    first: u64,
    in_use: Vec<bool>,
}

impl IdAllocator {
    pub closed spec fn first_id(&self) -> nat {
        self.first as nat
    }

    pub closed spec fn capacity(&self) -> nat {
        self.in_use@.len()
    }

    /// Whether `id` belongs to the pool.
    pub open spec fn in_pool(&self, id: u64) -> bool {
        self.first_id() <= id && id < self.first_id() + self.capacity()
    }

    /// The identifiers that are handed out and not yet freed.
    pub closed spec fn used(&self) -> Set<u64> {
        Set::new(|id: u64| self.in_pool(id) && self.in_use@[id - self.first])
    }

    pub open spec fn wf(&self) -> bool {
        self.first_id() + self.capacity() <= u64::MAX
    }

    /// A pool of `capacity` identifiers starting at `first`, all free.
    pub fn new(first: u64, capacity: usize) -> (r: IdAllocator)
        requires
            first + capacity <= u64::MAX,
        ensures
            r.wf(),
            r.first_id() == first,
            r.capacity() == capacity,
            r.used() == Set::<u64>::empty(),
    {
        let mut in_use: Vec<bool> = Vec::new();
        let mut i: usize = 0;
        while i < capacity
            invariant
                i <= capacity,
                in_use@.len() == i,
                forall|k: int| 0 <= k < i ==> !in_use@[k],
            decreases capacity - i,
        {
            in_use.push(false);
            i = i + 1;
        }
        let r = IdAllocator { first, in_use };
        assert(r.used() =~= Set::<u64>::empty());
        r
    }

    /// Whether `id` is in use.
    pub fn is_used(&self, id: u64) -> (r: bool)
        requires
            self.wf(),
        ensures
            r == self.used().contains(id),
    {
        if id >= self.first && id - self.first < self.in_use.len() as u64 {
            self.in_use[(id - self.first) as usize]
        } else {
            false
        }
    }

    /// Hands out the lowest free identifier and marks it used; `None` when
    /// every identifier of the pool is in use.
    pub fn allocate(&mut self) -> (r: Option<u64>)
        requires
            old(self).wf(),
        ensures
            final(self).wf(),
            final(self).first_id() == old(self).first_id(),
            final(self).capacity() == old(self).capacity(),
            match r {
                None => {
                    &&& *final(self) == *old(self)
                    &&& forall|id: u64| old(self).in_pool(id) ==> old(self).used().contains(id)
                },
                Some(id) => {
                    &&& old(self).in_pool(id)
                    &&& !old(self).used().contains(id)
                    &&& forall|j: u64|
                        old(self).in_pool(j) && j < id ==> old(self).used().contains(j)
                    &&& final(self).used() == old(self).used().insert(id)
                },
            },
    {
        let mut i: usize = 0;
        while i < self.in_use.len()
            invariant
                self.wf(),
                *self == *old(self),
                i <= self.in_use@.len(),
                forall|k: int| 0 <= k < i ==> self.in_use@[k],
            decreases self.in_use@.len() - i,
        {
            if !self.in_use[i] {
                let ghost before = *self;
                self.in_use.set(i, true);
                let id: u64 = self.first + i as u64;
                proof {
                    assert forall|j: u64| before.in_pool(j) && j < id implies before.used().contains(
                        j,
                    ) by {
                        assert(before.in_use@[j - before.first]);
                    }
                    assert(self.used() =~= before.used().insert(id));
                }
                return Some(id);
            }
            i = i + 1;
        }
        proof {
            assert forall|id: u64| self.in_pool(id) implies self.used().contains(id) by {
                assert(self.in_use@[id - self.first]);
            }
        }
        None
    }

    /// Returns `id` to the pool. Freeing an identifier that is not in use, or
    /// not of the pool, changes nothing.
    pub fn free(&mut self, id: u64)
        requires
            old(self).wf(),
        ensures
            final(self).wf(),
            final(self).first_id() == old(self).first_id(),
            final(self).capacity() == old(self).capacity(),
            final(self).used() == old(self).used().remove(id),
    {
        if id >= self.first && id - self.first < self.in_use.len() as u64 {
            let ghost before = *self;
            self.in_use.set((id - self.first) as usize, false);
            assert(self.used() =~= before.used().remove(id));
        } else {
            assert(self.used() =~= old(self).used().remove(id));
        }
    }
}

} // verus!
