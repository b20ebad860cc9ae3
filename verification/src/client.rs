//! The rule-driven client engine: the decisions the dispatcher makes for
//! every intercepted flow — resolve an action, register the connection,
//! consult the failover controller on the proxy path, deregister and
//! produce the one lifecycle line. The surrounding I/O (the flows
//! themselves, the rule set, the ownership query, the backends, the probe)
//! is a caller's concern: it hands in their answers as plain values.

use crate::action::{Action, ResolvedAction};
use crate::addr::{spec_address_text, Address};
use crate::failover::{next_backend_index, spec_is_first_match, spec_next_index, spec_no_match};
use crate::lifecycle::{
    close_line, duration_secs, interrupt_line, now_timestamp, spec_close_line, spec_duration,
    spec_interrupt_line, timestamp_text,
};
use crate::registry::{Connection, Registry};
use crate::resolver::{resolve_step, spec_resolve_step, Resolution};
use vstd::prelude::*;

verus! {

/// The engine's configuration and shared state. The backend list and the
/// error threshold come from configuration at startup; the registry is the
/// only mutable state the flows share (a caller serialises access to it).
pub struct RuledClient {
    /// When set, only flows owned by this UID are subject to the rules;
    /// every other flow goes direct.
    pub proxy_uid: Option<u32>,
    /// Consecutive connect errors the active backend may accumulate before
    /// the controller rotates away from it.
    pub max_connect_errors: u64,
    /// The names of the configured proxy backends, in rotation order;
    /// never empty (an empty backend list is a startup-time error).
    pub backend_names: Vec<String>,
    /// The live table of currently-open connections.
    pub registry: Registry,
}

/// The view a lifecycle line takes of an optional error text.
pub open spec fn spec_error_text(error: Option<&str>) -> Option<Seq<char>> {
    match error {
        Some(e) => Some(e@),
        None => None,
    }
}

/// The line `finish_connection` produces for a record, given the clock
/// readings it made: the "Close" form without an error, the "Interrupt"
/// form with one.
pub open spec fn spec_finish_line(
    id: u64,
    rec: Connection,
    error: Option<Seq<char>>,
    ts: Seq<char>,
    now: int,
) -> Seq<char> {
    let dur = spec_duration(now, rec.connect_time as int) as nat;
    match error {
        None => spec_close_line(id, ts, dur, spec_address_text(rec.address), rec.action),
        Some(e) => spec_interrupt_line(e, id, ts, dur, spec_address_text(rec.address), rec.action),
    }
}

impl RuledClient {
    /// The engine's invariant: at least one backend is configured, and the
    /// registry's issued ids are all below its counter.
    pub open spec fn wf(&self) -> bool {
        &&& self.backend_names@.len() > 0
        &&& self.registry.wf()
    }

    /// Build the engine. An empty backend list is a configuration error
    /// the caller must treat as fatal before getting here.
    pub fn new(proxy_uid: Option<u32>, max_connect_errors: u64, backend_names: Vec<String>) -> (c:
        RuledClient)
        requires
            backend_names@.len() > 0,
        ensures
            c.proxy_uid == proxy_uid,
            c.max_connect_errors == max_connect_errors,
            c.backend_names == backend_names,
            c.registry@ == Map::<u64, Connection>::empty(),
            c.registry.spec_next_id() == 0,
            c.wf(),
    {
        RuledClient {
            proxy_uid,
            max_connect_errors,
            backend_names,
            registry: Registry::new(),
        }
    }

    /// Resolve a flow as far as possible without suspending: rules are
    /// bypassed in favour of `Direct` when the flow does not belong to the
    /// configured UID; otherwise the matching rule or the default decides,
    /// and a `Probe` decision asks the caller to run one probe and feed its
    /// outcome to `apply_probe`. `belongs_to_uid` is the ownership
    /// filter's answer, present exactly when `proxy_uid` is configured.
    pub fn resolve(
        &self,
        belongs_to_uid: Option<bool>,
        rule_match: Option<Action>,
        default_action: Action,
    ) -> (r: Resolution)
        requires
            belongs_to_uid is Some <==> self.proxy_uid is Some,
        ensures
            r == spec_resolve_step(self.proxy_uid, belongs_to_uid, rule_match, default_action),
    {
        resolve_step(self.proxy_uid, belongs_to_uid, rule_match, default_action)
    }

    /// Register a flow at a given instant: issue a fresh id and store the
    /// record, before any backend is invoked.
    pub fn register_at(
        &mut self,
        address: Address,
        action: ResolvedAction,
        connect_time: i64,
    ) -> (id: u64)
        requires
            old(self).wf(),
            old(self).registry.spec_next_id() < u64::MAX,
        ensures
            Registry::spec_registered(
                old(self).registry,
                final(self).registry,
                (Connection {
                    address,
                    connect_time,
                    sent_bytes: 0,
                    recv_bytes: 0,
                    action,
                }),
                id,
            ),
            !old(self).registry@.contains_key(id),
            final(self).registry@.contains_key(id),
            final(self).proxy_uid == old(self).proxy_uid,
            final(self).max_connect_errors == old(self).max_connect_errors,
            final(self).backend_names == old(self).backend_names,
            final(self).wf(),
    {
        let conn = Connection { address, connect_time, sent_bytes: 0, recv_bytes: 0, action };
        self.registry.register(conn)
    }

    /// Register a flow at the current wall-clock time.
    pub fn register_now(&mut self, address: Address, action: ResolvedAction) -> (id: u64)
        requires
            old(self).wf(),
            old(self).registry.spec_next_id() < u64::MAX,
        ensures
            exists|t: i64|
                Registry::spec_registered(
                    old(self).registry,
                    final(self).registry,
                    (Connection {
                        address,
                        connect_time: t,
                        sent_bytes: 0,
                        recv_bytes: 0,
                        action,
                    }),
                    id,
                ),
            !old(self).registry@.contains_key(id),
            final(self).registry@.contains_key(id),
            final(self).proxy_uid == old(self).proxy_uid,
            final(self).max_connect_errors == old(self).max_connect_errors,
            final(self).backend_names == old(self).backend_names,
            final(self).wf(),
    {
        let t = now_timestamp();
        let id = self.register_at(address, action, t);
        id
    }

    /// The failover controller's check, run once per proxy-classified flow
    /// before the backend is invoked: when the active backend's
    /// consecutive-error count exceeds the configured maximum, the backend
    /// at the returned index becomes active — one past the current
    /// backend's position (0 when its name is unknown), wrapping
    /// round-robin; otherwise nothing changes.
    pub fn plan_failover(&self, current_backend: &String, connect_errors: u64) -> (r: Option<
        usize,
    >)
        requires
            self.wf(),
        ensures
            r is Some <==> connect_errors > self.max_connect_errors,
            match r {
                Some(ix) => {
                    &&& ix < self.backend_names@.len()
                    &&& forall|i: int|
                        #[trigger] spec_is_first_match(self.backend_names@, current_backend@, i)
                            ==> ix == spec_next_index(i, self.backend_names@.len() as int)
                    &&& spec_no_match(self.backend_names@, current_backend@) ==> ix
                        == spec_next_index(0, self.backend_names@.len() as int)
                },
                None => true,
            },
    {
        if connect_errors > self.max_connect_errors {
            Some(next_backend_index(&self.backend_names, current_backend))
        } else {
            None
        }
    }

    /// Deregister a flow and produce its one lifecycle line: the "Close"
    /// form when the backend succeeded (or the flow was rejected), the
    /// "Interrupt" form carrying the error's text when it failed. Finds
    /// nothing — and emits nothing — when the id is absent, so an id is
    /// finished at most once.
    pub fn finish_connection(&mut self, id: u64, error: Option<&str>) -> (r: Option<String>)
        requires
            old(self).wf(),
        ensures
            final(self).registry@ == old(self).registry@.remove(id),
            final(self).registry.spec_next_id() == old(self).registry.spec_next_id(),
            !final(self).registry@.contains_key(id),
            final(self).proxy_uid == old(self).proxy_uid,
            final(self).max_connect_errors == old(self).max_connect_errors,
            final(self).backend_names == old(self).backend_names,
            final(self).wf(),
            r is Some <==> old(self).registry@.contains_key(id),
            old(self).registry@.contains_key(id) ==> exists|ts: Seq<char>, now: int|
                r.unwrap()@ == spec_finish_line(
                    id,
                    old(self).registry@[id],
                    spec_error_text(error),
                    ts,
                    now,
                ),
    {
        let rec = self.registry.deregister(id);
        match rec {
            Some(conn) => {
                let now = now_timestamp();
                let ts = timestamp_text(conn.connect_time);
                let dur = duration_secs(now, conn.connect_time);
                let line = match error {
                    None => close_line(id, ts.as_str(), dur, &conn.address, conn.action),
                    Some(e) => interrupt_line(e, id, ts.as_str(), dur, &conn.address, conn.action),
                };
                proof {
                    assert(line@ == spec_finish_line(
                        id,
                        old(self).registry@[id],
                        spec_error_text(error),
                        ts@,
                        now as int,
                    ));
                }
                Some(line)
            },
            None => None,
        }
    }
}

} // verus!
