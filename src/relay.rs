use vstd::prelude::*;

use crate::addr::SourceAddr;
use crate::framer::{frame, frame_of, is_header_of, header_valid, parse_header, DropReason, Frame, Header, Role};
use crate::ids::IdAllocator;
use crate::table::SessionTable;

verus! {

/// A datagram accepted for a session.
#[derive(Debug)]
pub struct Request {
    /// The session's identifier.
    pub id: u64,
    /// Whether the session was created by this datagram; the host then
    /// builds its handler and registers it, and destroys the session if that
    /// fails.
    pub created: bool,
    /// The destination header.
    pub header: Header,
    /// Whether a payload follows the header and is to be handed to the
    /// session's handler.
    pub deliver: bool,
}

/// Where a readiness notification goes.
#[derive(Clone, Copy, Debug, PartialEq, Eq, Structural)]
pub enum Route {
    /// The listening socket is readable: rearm it, then receive one datagram.
    Receive,
    /// The listening socket reported an error: rearm it and report the error
    /// for this cycle.
    ListenerFault,
    /// The event belongs to the DNS resolver.
    Resolver,
    /// The event belongs to the live session with this identifier.
    Session { id: u64 },
    /// The identifier belongs to no live session: nothing to do.
    Stale,
}

/// The relay dispatcher's state: its role, the identifiers under which the
/// listening socket and the resolver are registered, the pool of session
/// identifiers and the session table.
pub struct UdpRelay {
    role: Role,
    listener_id: u64,
    resolver_id: u64,
    ids: IdAllocator,
    table: SessionTable,
}

impl UdpRelay {
    pub closed spec fn role(&self) -> Role {
        self.role
    }

    pub closed spec fn listener_id(&self) -> u64 {
        self.listener_id
    }

    pub closed spec fn resolver_id(&self) -> u64 {
        self.resolver_id
    }

    /// The live sessions by identifier.
    pub closed spec fn sessions(&self) -> Map<u64, SourceAddr> {
        self.table.ids()
    }

    /// The live sessions by source address.
    pub closed spec fn sources(&self) -> Map<SourceAddr, u64> {
        self.table.addrs()
    }

    /// The identifiers handed out by the pool and not yet freed.
    pub closed spec fn used_ids(&self) -> Set<u64> {
        self.ids.used()
    }

    /// Whether `id` belongs to the pool of session identifiers.
    pub closed spec fn in_pool(&self, id: u64) -> bool {
        self.ids.in_pool(id)
    }

    pub closed spec fn inner_wf(&self) -> bool {
        &&& self.ids.wf()
        &&& self.table.wf()
        &&& self.ids.first_id() == self.table.first_id()
        &&& self.ids.capacity() == self.table.capacity()
    }

    /// The relay's invariant: the two indices agree, an identifier is in use
    /// exactly when a live session holds it, and the listener's and the
    /// resolver's identifiers are never session identifiers.
    pub open spec fn wf(&self) -> bool {
        &&& self.inner_wf()
        &&& forall|id: u64| #[trigger]
            self.sessions().contains_key(id) ==> self.sources().contains_key(self.sessions()[id])
                && self.sources()[self.sessions()[id]] == id
        &&& forall|a: SourceAddr| #[trigger]
            self.sources().contains_key(a) ==> self.sessions().contains_key(self.sources()[a])
                && self.sessions()[self.sources()[a]] == a
        &&& self.used_ids() == self.sessions().dom()
        &&& !self.in_pool(self.listener_id())
        &&& !self.in_pool(self.resolver_id())
        &&& self.listener_id() != self.resolver_id()
    }

    /// What destroying session `id` leaves: `after` has neither the session
    /// nor its address, its identifier is free again, and nothing else
    /// changed. Destroying an absent session changes nothing.
    pub open spec fn destroyed(before: UdpRelay, after: UdpRelay, id: u64) -> bool {
        &&& after.role() == before.role()
        &&& after.listener_id() == before.listener_id()
        &&& after.resolver_id() == before.resolver_id()
        &&& forall|k: u64| after.in_pool(k) == before.in_pool(k)
        &&& if before.sessions().contains_key(id) {
            &&& after.sessions() == before.sessions().remove(id)
            &&& after.sources() == before.sources().remove(before.sessions()[id])
            &&& after.used_ids() == before.used_ids().remove(id)
        } else {
            &&& after.sessions() == before.sessions()
            &&& after.sources() == before.sources()
            &&& after.used_ids() == before.used_ids()
        }
    }

    /// What handling the inner relay datagram `data` from `addr` does: a
    /// malformed header, or a full pool when a session is needed, drops the
    /// datagram and changes nothing; otherwise the session for `addr`, found
    /// or created under the lowest free identifier, takes the datagram.
    pub open spec fn request_handled(
        before: UdpRelay,
        after: UdpRelay,
        addr: SourceAddr,
        data: Seq<u8>,
        r: Result<Request, DropReason>,
    ) -> bool {
        &&& after.role() == before.role()
        &&& after.listener_id() == before.listener_id()
        &&& after.resolver_id() == before.resolver_id()
        &&& forall|k: u64| after.in_pool(k) == before.in_pool(k)
        &&& !header_valid(data) ==> r == Err::<Request, DropReason>(DropReason::InvalidHeader)
        &&& header_valid(data) && before.sources().contains_key(addr) ==> r is Ok
        &&& header_valid(data) && !before.sources().contains_key(addr) ==> {
            ||| r is Ok && exists|k: u64| before.in_pool(k) && !before.used_ids().contains(k)
            ||| r == Err::<Request, DropReason>(DropReason::NoFreeId) && forall|k: u64|
                before.in_pool(k) ==> before.used_ids().contains(k)
        }
        &&& r is Err ==> after == before
        &&& r matches Ok(q) ==> {
            &&& is_header_of(q.header, data)
            &&& q.deliver == (q.header.len < data.len())
            &&& q.created == !before.sources().contains_key(addr)
            &&& after.sources().contains_key(addr)
            &&& after.sources()[addr] == q.id
            &&& if q.created {
                &&& before.in_pool(q.id)
                &&& !before.used_ids().contains(q.id)
                &&& forall|k: u64| before.in_pool(k) && k < q.id ==> before.used_ids().contains(k)
                &&& after.sessions() == before.sessions().insert(q.id, addr)
                &&& after.sources() == before.sources().insert(addr, q.id)
                &&& after.used_ids() == before.used_ids().insert(q.id)
            } else {
                &&& q.id == before.sources()[addr]
                &&& after == before
            }
        }
    }

    /// A dispatcher in role `role` with no sessions. The listening socket and
    /// the resolver are registered under `listener_id` and `resolver_id`;
    /// sessions get identifiers from `first_id` up to, not including,
    /// `first_id + capacity`.
    pub fn new(role: Role, listener_id: u64, resolver_id: u64, first_id: u64, capacity: usize) -> (r:
        UdpRelay)
        requires
            first_id + capacity <= u64::MAX,
            listener_id != resolver_id,
            !(first_id <= listener_id < first_id + capacity),
            !(first_id <= resolver_id < first_id + capacity),
        ensures
            r.wf(),
            r.role() == role,
            r.listener_id() == listener_id,
            r.resolver_id() == resolver_id,
            forall|id: u64| r.in_pool(id) <==> first_id <= id < first_id + capacity,
            r.sessions() == Map::<u64, SourceAddr>::empty(),
            r.sources() == Map::<SourceAddr, u64>::empty(),
    {
        let r = UdpRelay {
            role,
            listener_id,
            resolver_id,
            ids: IdAllocator::new(first_id, capacity),
            table: SessionTable::new(first_id, capacity),
        };
        assert(r.used_ids() =~= r.sessions().dom());
        r
    }

    /// Where a readiness notification for `id` goes; `error` tells whether it
    /// reports an error.
    pub fn ready(&self, id: u64, error: bool) -> (r: Route)
        requires
            self.wf(),
        ensures
            r == (if id == self.listener_id() {
                if error {
                    Route::ListenerFault
                } else {
                    Route::Receive
                }
            } else if id == self.resolver_id() {
                Route::Resolver
            } else if self.sessions().contains_key(id) {
                Route::Session { id }
            } else {
                Route::Stale
            }),
    {
        if id == self.listener_id {
            if error {
                Route::ListenerFault
            } else {
                Route::Receive
            }
        } else if id == self.resolver_id {
            Route::Resolver
        } else if self.table.lookup_by_id(id).is_some() {
            Route::Session { id }
        } else {
            Route::Stale
        }
    }

    /// How this relay frames a received datagram.
    pub fn frame(&self, data: &[u8]) -> (r: Result<Frame, DropReason>)
        ensures
            r == frame_of(self.role(), data@),
    {
        frame(self.role, data)
    }

    /// The address of session `id`, if it is live.
    pub fn session_addr(&self, id: u64) -> (r: Option<SourceAddr>)
        requires
            self.wf(),
        ensures
            r == (if self.sessions().contains_key(id) {
                Some(self.sessions()[id])
            } else {
                None::<SourceAddr>
            }),
    {
        self.table.lookup_by_id(id)
    }

    /// The identifier of the session for `addr`, if there is one.
    pub fn session_of(&self, addr: &SourceAddr) -> (r: Option<u64>)
        requires
            self.wf(),
        ensures
            r == (if self.sources().contains_key(*addr) {
                Some(self.sources()[*addr])
            } else {
                None::<u64>
            }),
    {
        self.table.lookup_by_addr(addr)
    }

    /// Handles an inner relay datagram from `addr`: reads its destination
    /// header, finds the session for `addr` or creates one under the lowest
    /// free identifier, and says whether a payload is to be delivered.
    /// A malformed header, or a full pool when a session is needed, drops the
    /// datagram and changes nothing.
    pub fn handle_request(&mut self, addr: SourceAddr, data: &[u8]) -> (r: Result<Request, DropReason>)
        requires
            old(self).wf(),
        ensures
            final(self).wf(),
            Self::request_handled(*old(self), *final(self), addr, data@, r),
    {
        let header = match parse_header(data) {
            Some(h) => h,
            None => {
                return Err(DropReason::InvalidHeader);
            },
        };
        let deliver = header.len < data.len();
        match self.table.lookup_by_addr(&addr) {
            Some(id) => Ok(Request { id, created: false, header, deliver }),
            None => {
                let ghost before = *self;
                match self.ids.allocate() {
                    None => {
                        assert forall|k: u64| before.in_pool(k) implies before.used_ids().contains(
                            k,
                        ) by {
                            assert(before.ids.in_pool(k));
                        }
                        Err(DropReason::NoFreeId)
                    },
                    Some(id) => {
                        assert(before.in_pool(id) && !before.used_ids().contains(id));
                        self.table.insert(id, addr);
                        assert(self.used_ids() =~= self.sessions().dom());
                        Ok(Request { id, created: true, header, deliver })
                    },
                }
            },
        }
    }

    /// Handles what the cipher made of a datagram from `addr`: `None`, a
    /// failed decryption, drops it and changes nothing; the plaintext of a
    /// successful one is an inner relay datagram.
    pub fn handle_decrypted(&mut self, addr: SourceAddr, decrypted: Option<&[u8]>) -> (r: Result<
        Request,
        DropReason,
    >)
        requires
            old(self).wf(),
        ensures
            final(self).wf(),
            decrypted is None ==> r == Err::<Request, DropReason>(DropReason::DecryptFailed),
            decrypted is None ==> *final(self) == *old(self),
            decrypted matches Some(d) ==> Self::request_handled(*old(self), *final(self), addr, d@, r),
    {
        match decrypted {
            None => Err(DropReason::DecryptFailed),
            Some(d) => self.handle_request(addr, d),
        }
    }

    /// Destroys session `id`: removes it from both indices and frees its
    /// identifier. The host tears the session's handler down first.
    /// Destroying a session that is not live changes nothing, so a timeout
    /// that races with an error is harmless. Returns the address of the
    /// session destroyed.
    pub fn destroy(&mut self, id: u64) -> (r: Option<SourceAddr>)
        requires
            old(self).wf(),
        ensures
            final(self).wf(),
            Self::destroyed(*old(self), *final(self), id),
            r == (if old(self).sessions().contains_key(id) {
                Some(old(self).sessions()[id])
            } else {
                None::<SourceAddr>
            }),
    {
        let r = self.table.remove(id);
        if r.is_some() {
            self.ids.free(id);
        }
        assert(self.used_ids() =~= self.sessions().dom());
        r
    }
}

/// Two different source addresses with live sessions never share an
/// identifier.
pub proof fn lemma_distinct_sources_distinct_ids(r: UdpRelay, a: SourceAddr, b: SourceAddr)
    requires
        r.wf(),
        a != b,
        r.sources().contains_key(a),
        r.sources().contains_key(b),
    ensures
        r.sources()[a] != r.sources()[b],
{
    assert(r.sessions()[r.sources()[a]] == a);
    assert(r.sessions()[r.sources()[b]] == b);
}

/// A session is reachable from both indices or from neither: identifier `id`
/// leads to address `a` exactly when `a` leads to `id`.
pub proof fn lemma_reachable_from_both_or_neither(r: UdpRelay, id: u64, a: SourceAddr)
    requires
        r.wf(),
    ensures
        (r.sessions().contains_key(id) && r.sessions()[id] == a) <==> (r.sources().contains_key(a)
            && r.sources()[a] == id),
{
    if r.sessions().contains_key(id) {
        assert(r.sources().contains_key(r.sessions()[id]));
    }
    if r.sources().contains_key(a) {
        assert(r.sessions().contains_key(r.sources()[a]));
    }
}

/// An identifier of the pool that is free, the only kind the pool hands
/// out, is reachable from neither index.
pub proof fn lemma_free_id_unreachable(r: UdpRelay, id: u64)
    requires
        r.wf(),
        !r.used_ids().contains(id),
    ensures
        !r.sessions().contains_key(id),
        forall|a: SourceAddr| r.sources().contains_key(a) ==> r.sources()[a] != id,
{
    assert forall|a: SourceAddr| r.sources().contains_key(a) implies r.sources()[a] != id by {
        assert(r.sessions().contains_key(r.sources()[a]));
    }
}

/// Destroying a session twice is the same as destroying it once: after the
/// second time neither index holds it and nothing else has changed.
pub proof fn lemma_destroy_twice(r0: UdpRelay, r1: UdpRelay, r2: UdpRelay, id: u64)
    requires
        r0.wf(),
        UdpRelay::destroyed(r0, r1, id),
        UdpRelay::destroyed(r1, r2, id),
    ensures
        r2.sessions() == r1.sessions(),
        r2.sources() == r1.sources(),
        r2.used_ids() == r1.used_ids(),
        !r2.sessions().contains_key(id),
        !r2.used_ids().contains(id),
        r0.sessions().contains_key(id) ==> !r2.sources().contains_key(r0.sessions()[id]),
        !r0.sessions().contains_key(id) ==> r2.sessions() == r0.sessions() && r2.sources()
            == r0.sources(),
{
}

} // verus!
