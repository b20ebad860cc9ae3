//! The connection registry: the live table of currently-open flows, keyed
//! by a strictly increasing, never-reused connection id issued by the
//! registry itself. An id is present exactly while its flow is being
//! handled: registration inserts the record together with the id increment,
//! and deregistration removes it at most once.

use crate::action::ResolvedAction;
use crate::addr::Address;
use std::collections::HashMap;
use vstd::prelude::*;

verus! {

broadcast use vstd::std_specs::hash::group_hash_axioms;

/// The metadata kept for one active flow, owned by the registry from
/// registration to deregistration; the handling task keeps no reference of
/// its own into the stored record.
#[derive(Clone, Debug)]
pub struct Connection {
    /// The destination being reached.
    pub address: Address,
    /// Wall-clock Unix seconds at registration.
    pub connect_time: i64,
    /// Bytes sent, populated by backends (not by this engine).
    pub sent_bytes: u64,
    /// Bytes received, populated by backends (not by this engine).
    pub recv_bytes: u64,
    /// The resolved action the flow was dispatched on.
    pub action: ResolvedAction,
}

/// The registry: a single shared id counter paired with the map of live
/// connections.
pub struct Registry {
    next_id: u64,
    connections: HashMap<u64, Connection>,
}

impl View for Registry {
    type V = Map<u64, Connection>;

    closed spec fn view(&self) -> Map<u64, Connection> {
        self.connections@
    }
}

impl Registry {
    /// The id the next registration will be issued.
    pub closed spec fn spec_next_id(&self) -> u64 {
        self.next_id
    }

    /// Every id ever issued is below the counter, so every live id is.
    pub open spec fn wf(&self) -> bool {
        forall|k: u64| self@.contains_key(k) ==> k < self.spec_next_id()
    }

    /// One registration step: `id` was issued by the counter, the counter
    /// advanced by exactly one, and the record was inserted under `id`.
    pub open spec fn spec_registered(
        pre: Registry,
        post: Registry,
        conn: Connection,
        id: u64,
    ) -> bool {
        &&& id == pre.spec_next_id()
        &&& post.spec_next_id() == id + 1
        &&& post@ == pre@.insert(id, conn)
    }

    /// One deregistration step: the id was removed (a no-op when absent)
    /// and its record, if any, handed back; the counter never moves, so an
    /// id is never reissued.
    pub open spec fn spec_deregistered(
        pre: Registry,
        post: Registry,
        id: u64,
        r: Option<Connection>,
    ) -> bool {
        &&& post@ == pre@.remove(id)
        &&& post.spec_next_id() == pre.spec_next_id()
        &&& r == (if pre@.contains_key(id) {
            Some(pre@[id])
        } else {
            None::<Connection>
        })
    }

    /// An empty registry whose counter starts at zero.
    pub fn new() -> (r: Registry)
        ensures
            r@ == Map::<u64, Connection>::empty(),
            r.spec_next_id() == 0,
            r.wf(),
    {
        Registry { next_id: 0, connections: HashMap::new() }
    }

    /// Register a flow: issue a fresh id and insert the record under it,
    /// as one step, before any backend is invoked.
    pub fn register(&mut self, conn: Connection) -> (id: u64)
        requires
            old(self).wf(),
            old(self).spec_next_id() < u64::MAX,
        ensures
            Registry::spec_registered(*old(self), *final(self), conn, id),
            !old(self)@.contains_key(id),
            final(self)@.contains_key(id) && final(self)@[id] == conn,
            final(self).wf(),
    {
        let id = self.next_id;
        self.next_id = id + 1;
        self.connections.insert(id, conn);
        proof {
            assert forall|k: u64| self@.contains_key(k) implies k < self.spec_next_id() by {
                if k != id {
                    assert(old(self)@.contains_key(k));
                }
            }
        }
        id
    }

    /// Deregister a flow: remove and return its record. Removing an id
    /// that is absent — never registered, or already deregistered — finds
    /// nothing and is not an error.
    pub fn deregister(&mut self, id: u64) -> (r: Option<Connection>)
        requires
            old(self).wf(),
        ensures
            Registry::spec_deregistered(*old(self), *final(self), id, r),
            !final(self)@.contains_key(id),
            final(self).wf(),
    {
        self.connections.remove(&id)
    }

    /// Read the id the next registration will be issued, so that a host
    /// can check the counter has room before registering.
    pub fn next_id(&self) -> (r: u64)
        ensures
            r == self.spec_next_id(),
    {
        self.next_id
    }

    /// Whether a flow is currently live under `id`.
    pub fn contains(&self, id: u64) -> (r: bool)
        ensures
            r == self@.contains_key(id),
    {
        self.connections.contains_key(&id)
    }

    /// How many flows are currently live.
    pub fn len(&self) -> (r: usize)
        ensures
            r == self@.len(),
    {
        self.connections.len()
    }
}

/// Law: ids issued by two registrations, in issuance order, are strictly
/// increasing — hence pairwise distinct — and an issued id is never one
/// that is already present.
pub proof fn lemma_issued_ids_distinct(
    a: Registry,
    b: Registry,
    c: Registry,
    c1: Connection,
    c2: Connection,
    id1: u64,
    id2: u64,
)
    requires
        a.wf(),
        Registry::spec_registered(a, b, c1, id1),
        Registry::spec_registered(b, c, c2, id2),
    ensures
        id1 < id2,
        id1 != id2,
        !a@.contains_key(id1),
        !b@.contains_key(id2),
        c@.contains_key(id1) && c@.contains_key(id2),
{
    assert(b@ == a@.insert(id1, c1));
    assert(forall|k: u64| b@.contains_key(k) ==> k < b.spec_next_id());
}

/// Law: after a flow is deregistered its id is absent from the registry,
/// and a second deregistration of the same id returns no record and
/// changes nothing.
pub proof fn lemma_deregister_exactly_once(
    a: Registry,
    b: Registry,
    c: Registry,
    id: u64,
    r1: Option<Connection>,
    r2: Option<Connection>,
)
    requires
        Registry::spec_deregistered(a, b, id, r1),
        Registry::spec_deregistered(b, c, id, r2),
    ensures
        !b@.contains_key(id),
        a@.contains_key(id) ==> r1 == Some(a@[id]),
        r2 is None,
        c@ == b@,
{
    assert(c@ =~= b@);
}

} // verus!
