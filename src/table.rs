use vstd::prelude::*;

use crate::addr::SourceAddr;

verus! {

/// The live sessions, kept under two indices: identifier to source address
/// and source address to identifier. Identifiers come from the range
/// `first_id()` up to, not including, `first_id() + capacity()`.
///
/// The identifier index is an arena with one slot per identifier; the address
/// index is a list of pairs with distinct addresses.
pub struct SessionTable {
    first: u64,
    by_id: Vec<Option<SourceAddr>>,
    by_addr: Vec<(SourceAddr, u64)>,
    addr_map: Ghost<Map<SourceAddr, u64>>,
}

/// The list `v` holds exactly the entries of `m`, each address once.
spec fn list_holds(v: Seq<(SourceAddr, u64)>, m: Map<SourceAddr, u64>) -> bool {
    &&& forall|i: int| 0 <= i < v.len() ==> m.contains_key(#[trigger] v[i].0) && m[v[i].0] == v[i].1
    &&& forall|i: int, j: int| 0 <= i < v.len() && 0 <= j < v.len() && i != j ==> v[i].0 != v[j].0
    &&& forall|a: SourceAddr| m.contains_key(a) ==> exists|i: int| 0 <= i < v.len() && v[i].0 == a
}

impl SessionTable {
    pub closed spec fn first_id(&self) -> nat {
        self.first as nat
    }

    pub closed spec fn capacity(&self) -> nat {
        self.by_id@.len()
    }

    pub open spec fn in_pool(&self, id: u64) -> bool {
        self.first_id() <= id && id < self.first_id() + self.capacity()
    }

    /// The identifier index.
    pub closed spec fn ids(&self) -> Map<u64, SourceAddr> {
        Map::new(
            |id: u64| self.first <= id < self.first + self.by_id@.len() && self.by_id@[id - self.first] is Some,
            |id: u64| self.by_id@[id - self.first]->0,
        )
    }

    /// The address index.
    pub closed spec fn addrs(&self) -> Map<SourceAddr, u64> {
        self.addr_map@
    }

    /// Every session reachable from one index is reachable from the other,
    /// under the same identifier and address.
    pub open spec fn indices_agree(&self) -> bool {
        &&& forall|id: u64| #[trigger]
            self.ids().contains_key(id) ==> self.addrs().contains_key(self.ids()[id])
                && self.addrs()[self.ids()[id]] == id
        &&& forall|a: SourceAddr| #[trigger]
            self.addrs().contains_key(a) ==> self.ids().contains_key(self.addrs()[a])
                && self.ids()[self.addrs()[a]] == a
    }

    pub closed spec fn inner_wf(&self) -> bool {
        &&& self.first + self.by_id@.len() <= u64::MAX
        &&& list_holds(self.by_addr@, self.addr_map@)
    }

    pub open spec fn wf(&self) -> bool {
        &&& self.inner_wf()
        &&& self.indices_agree()
        &&& self.first_id() + self.capacity() <= u64::MAX
        &&& forall|id: u64| #[trigger] self.ids().contains_key(id) ==> self.in_pool(id)
    }

    /// An empty table for identifiers `first` up to `first + capacity`.
    pub fn new(first: u64, capacity: usize) -> (r: SessionTable)
        requires
            first + capacity <= u64::MAX,
        ensures
            r.wf(),
            r.first_id() == first,
            r.capacity() == capacity,
            r.ids() == Map::<u64, SourceAddr>::empty(),
            r.addrs() == Map::<SourceAddr, u64>::empty(),
    {
        let mut by_id: Vec<Option<SourceAddr>> = Vec::new();
        let mut i: usize = 0;
        while i < capacity
            invariant
                i <= capacity,
                by_id@.len() == i,
                forall|k: int| 0 <= k < i ==> by_id@[k] is None,
            decreases capacity - i,
        {
            by_id.push(None);
            i = i + 1;
        }
        let r = SessionTable {
            first,
            by_id,
            by_addr: Vec::new(),
            addr_map: Ghost(Map::empty()),
        };
        assert(r.ids() =~= Map::<u64, SourceAddr>::empty());
        r
    }

    /// Where `addr` stands in the address list.
    fn position(&self, addr: &SourceAddr) -> (r: Option<usize>)
        requires
            self.wf(),
        ensures
            match r {
                Some(i) => i < self.by_addr@.len() && self.by_addr@[i as int].0 == *addr,
                None => !self.addrs().contains_key(*addr),
            },
    {
        let mut i: usize = 0;
        while i < self.by_addr.len()
            invariant
                self.wf(),
                i <= self.by_addr@.len(),
                forall|k: int| 0 <= k < i ==> self.by_addr@[k].0 != *addr,
            decreases self.by_addr@.len() - i,
        {
            if self.by_addr[i].0.same(addr) {
                return Some(i);
            }
            i = i + 1;
        }
        None
    }

    /// The address of the session with identifier `id`.
    pub fn lookup_by_id(&self, id: u64) -> (r: Option<SourceAddr>)
        requires
            self.wf(),
        ensures
            r == (if self.ids().contains_key(id) {
                Some(self.ids()[id])
            } else {
                None::<SourceAddr>
            }),
    {
        if id >= self.first && id - self.first < self.by_id.len() as u64 {
            self.by_id[(id - self.first) as usize]
        } else {
            None
        }
    }

    /// The identifier of the session for `addr`.
    pub fn lookup_by_addr(&self, addr: &SourceAddr) -> (r: Option<u64>)
        requires
            self.wf(),
        ensures
            r == (if self.addrs().contains_key(*addr) {
                Some(self.addrs()[*addr])
            } else {
                None::<u64>
            }),
    {
        match self.position(addr) {
            Some(i) => Some(self.by_addr[i].1),
            None => None,
        }
    }

    /// Whether a session exists for `addr`.
    pub fn contains_addr(&self, addr: &SourceAddr) -> (r: bool)
        requires
            self.wf(),
        ensures
            r == self.addrs().contains_key(*addr),
    {
        self.position(addr).is_some()
    }

    /// Records a new session under both indices.
    pub fn insert(&mut self, id: u64, addr: SourceAddr)
        requires
            old(self).wf(),
            old(self).in_pool(id),
            !old(self).ids().contains_key(id),
            !old(self).addrs().contains_key(addr),
        ensures
            final(self).wf(),
            final(self).first_id() == old(self).first_id(),
            final(self).capacity() == old(self).capacity(),
            final(self).ids() == old(self).ids().insert(id, addr),
            final(self).addrs() == old(self).addrs().insert(addr, id),
    {
        let ghost before = *self;
        let slots = self.by_id.len();
        let slot: usize = (id - self.first) as usize;
        assert(slot < slots);
        self.by_id.set(slot, Some(addr));
        self.by_addr.push((addr, id));
        self.addr_map = Ghost(self.addr_map@.insert(addr, id));
        proof {
            assert(self.ids() =~= before.ids().insert(id, addr));
            let v = self.by_addr@;
            assert forall|a: SourceAddr| self.addr_map@.contains_key(a) implies exists|i: int|
                0 <= i < v.len() && v[i].0 == a by {
                if a == addr {
                    assert(v[v.len() - 1].0 == a);
                } else {
                    let i = choose|i: int| 0 <= i < before.by_addr@.len() && before.by_addr@[i].0 == a;
                    assert(v[i].0 == a);
                }
            }
        }
    }

    /// Removes the session with identifier `id` from both indices and returns
    /// its address; `None`, with nothing changed, when there is no such
    /// session.
    pub fn remove(&mut self, id: u64) -> (r: Option<SourceAddr>)
        requires
            old(self).wf(),
        ensures
            final(self).wf(),
            final(self).first_id() == old(self).first_id(),
            final(self).capacity() == old(self).capacity(),
            if old(self).ids().contains_key(id) {
                &&& r == Some(old(self).ids()[id])
                &&& final(self).ids() == old(self).ids().remove(id)
                &&& final(self).addrs() == old(self).addrs().remove(old(self).ids()[id])
            } else {
                &&& r is None
                &&& *final(self) == *old(self)
            },
    {
        let found = self.lookup_by_id(id);
        match found {
            None => None,
            Some(addr) => {
                let ghost before = *self;
                let pos = self.position(&addr);
                let i = pos.unwrap();
                assert(before.ids().dom().contains(id));
                assert(before.first <= id < before.first + before.by_id@.len());
                let slots = self.by_id.len();
                let slot: usize = (id - self.first) as usize;
                assert(slot < slots);
                self.by_id.set(slot, None);
                self.by_addr.swap_remove(i);
                self.addr_map = Ghost(self.addr_map@.remove(addr));
                proof {
                    assert(self.ids() =~= before.ids().remove(id));
                    let v = self.by_addr@;
                    let w = before.by_addr@;
                    assert forall|a: SourceAddr| self.addr_map@.contains_key(a) implies exists|k: int|
                        0 <= k < v.len() && v[k].0 == a by {
                        let j = choose|j: int| 0 <= j < w.len() && w[j].0 == a;
                        if j == w.len() - 1 {
                            assert(v[i as int].0 == a);
                        } else {
                            assert(v[j].0 == a);
                        }
                    }
                    assert forall|k: int| 0 <= k < v.len() implies self.addr_map@.contains_key(
                        #[trigger] v[k].0,
                    ) && self.addr_map@[v[k].0] == v[k].1 by {
                        if k == i {
                            assert(v[k] == w[w.len() - 1]);
                        } else {
                            assert(v[k] == w[k]);
                        }
                    }
                    assert forall|k: int, j: int|
                        0 <= k < v.len() && 0 <= j < v.len() && k != j implies v[k].0 != v[j].0 by {
                        let kk = if k == i { w.len() - 1 } else { k };
                        let jj = if j == i { w.len() - 1 } else { j };
                        assert(v[k] == w[kk]);
                        assert(v[j] == w[jj]);
                    }
                }
                Some(addr)
            },
        }
    }
}

} // verus!
