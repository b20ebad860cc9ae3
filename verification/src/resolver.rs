//! Action resolution: from a rule decision (and, when configured, the
//! ownership filter's answer) to a resolved action, with `Probe` turned into
//! `Direct` or `Proxy` by the connectivity prober's outcome.

use crate::action::{Action, ResolvedAction};
use vstd::prelude::*;

verus! {

/// The resolver's intermediate outcome: either a final decision, or the need
/// to run one connectivity probe before deciding.
#[derive(Clone, Copy, Debug, PartialEq, Eq, Structural)]
pub enum Resolution {
    Decided(ResolvedAction),
    NeedsProbe,
}

/// What the rule set yields for a lookup key: the matching rule's
/// action, or the configured default when no rule matches.
pub open spec fn spec_effective_rule(rule_match: Option<Action>, default_action: Action) -> Action {
    match rule_match {
        Some(a) => a,
        None => default_action,
    }
}

/// Whether rule evaluation is bypassed: an ownership filter is configured
/// and reported that the flow does not belong to the filtered UID.
pub open spec fn spec_bypasses_rules(proxy_uid: Option<u32>, belongs_to_uid: Option<bool>) -> bool {
    proxy_uid is Some && belongs_to_uid == Some(false)
}

/// The resolver's decision before any probe runs.
pub open spec fn spec_resolve_step(
    proxy_uid: Option<u32>,
    belongs_to_uid: Option<bool>,
    rule_match: Option<Action>,
    default_action: Action,
) -> Resolution {
    if spec_bypasses_rules(proxy_uid, belongs_to_uid) {
        Resolution::Decided(ResolvedAction::Direct)
    } else {
        match spec_effective_rule(rule_match, default_action) {
            Action::Direct => Resolution::Decided(ResolvedAction::Direct),
            Action::Proxy => Resolution::Decided(ResolvedAction::Proxy),
            Action::Reject => Resolution::Decided(ResolvedAction::Reject),
            Action::Probe => Resolution::NeedsProbe,
        }
    }
}

/// What a probe outcome resolves to: a confirmed direct connection keeps the
/// flow direct, anything else falls back to the proxy.
pub open spec fn spec_apply_probe(probe_ok: bool) -> ResolvedAction {
    if probe_ok {
        ResolvedAction::Direct
    } else {
        ResolvedAction::Proxy
    }
}

/// The action a flow finally resolves to, given the probe's outcome in case
/// one is needed.
pub open spec fn spec_resolved_of(
    proxy_uid: Option<u32>,
    belongs_to_uid: Option<bool>,
    rule_match: Option<Action>,
    default_action: Action,
    probe_ok: bool,
) -> ResolvedAction {
    match spec_resolve_step(proxy_uid, belongs_to_uid, rule_match, default_action) {
        Resolution::Decided(a) => a,
        Resolution::NeedsProbe => spec_apply_probe(probe_ok),
    }
}

/// Resolve a flow as far as possible without suspending.
///
/// `belongs_to_uid` is the ownership filter's answer for the flow's remote
/// address, and is present exactly when a filtered UID is configured; when
/// the flow does not belong to that UID, rules are bypassed and the flow
/// goes direct. Otherwise the matching rule (or the default) decides, and a
/// `Probe` decision asks the caller to run one connectivity probe.
pub fn resolve_step(
    proxy_uid: Option<u32>,
    belongs_to_uid: Option<bool>,
    rule_match: Option<Action>,
    default_action: Action,
) -> (r: Resolution)
    requires
        belongs_to_uid is Some <==> proxy_uid is Some,
    ensures
        r == spec_resolve_step(proxy_uid, belongs_to_uid, rule_match, default_action),
{
    let bypass = match (proxy_uid, belongs_to_uid) {
        (Some(_), Some(false)) => true,
        _ => false,
    };
    if bypass {
        Resolution::Decided(ResolvedAction::Direct)
    } else {
        let effective = match rule_match {
            Some(a) => a,
            None => default_action,
        };
        match effective {
            Action::Direct => Resolution::Decided(ResolvedAction::Direct),
            Action::Proxy => Resolution::Decided(ResolvedAction::Proxy),
            Action::Reject => Resolution::Decided(ResolvedAction::Reject),
            Action::Probe => Resolution::NeedsProbe,
        }
    }
}

/// Turn a probe outcome into the final action: reachability confirmed means
/// `Direct`, unreachable or timed out means `Proxy` — no third outcome.
pub fn apply_probe(probe_ok: bool) -> (r: ResolvedAction)
    ensures
        r == spec_apply_probe(probe_ok),
        probe_ok ==> r == ResolvedAction::Direct,
        !probe_ok ==> r == ResolvedAction::Proxy,
{
    if probe_ok {
        ResolvedAction::Direct
    } else {
        ResolvedAction::Proxy
    }
}

/// Whether any of the sockets owned by the filtered UID has the flow's
/// remote address as its local address — the computational part of the
/// ownership filter, over the addresses the OS query returned.
pub fn socket_belongs(remote: &String, locals: &Vec<String>) -> (r: bool)
    ensures
        r == exists|i: int| 0 <= i < locals@.len() && locals@[i]@ == remote@,
{
    let n = locals.len();
    let mut i: usize = 0;
    while i < n
        invariant
            n == locals@.len(),
            i <= n,
            forall|j: int| 0 <= j < i ==> locals@[j]@ != remote@,
        decreases n - i,
    {
        if locals[i] == *remote {
            return true;
        }
        i = i + 1;
    }
    false
}

/// Law: when the ownership filter reports that the flow does not belong to
/// the configured UID, the resolved action is `Direct`, whatever the rules
/// would have said.
pub proof fn lemma_foreign_uid_forces_direct(
    uid: u32,
    rule_match: Option<Action>,
    default_action: Action,
)
    ensures
        spec_resolve_step(Some(uid), Some(false), rule_match, default_action)
            == Resolution::Decided(ResolvedAction::Direct),
{
}

/// Law: resolution never yields `Probe`. A `Probe` rule decision is the one
/// case that needs a probe, and the probe's outcome maps to exactly
/// `Direct` or `Proxy`; every other decision is made outright, so the
/// caller only ever observes `Direct`, `Proxy` or `Reject`.
pub proof fn lemma_probe_never_escapes(
    proxy_uid: Option<u32>,
    belongs_to_uid: Option<bool>,
    rule_match: Option<Action>,
    default_action: Action,
    probe_ok: bool,
)
    ensures
        spec_resolve_step(proxy_uid, belongs_to_uid, rule_match, default_action)
            == Resolution::NeedsProbe ==> spec_effective_rule(rule_match, default_action)
            == Action::Probe,
        spec_resolve_step(proxy_uid, belongs_to_uid, rule_match, default_action)
            == Resolution::NeedsProbe ==> spec_resolved_of(
            proxy_uid,
            belongs_to_uid,
            rule_match,
            default_action,
            probe_ok,
        ) == spec_apply_probe(probe_ok),
        spec_resolved_of(proxy_uid, belongs_to_uid, rule_match, default_action, probe_ok)
            is Direct || spec_resolved_of(
            proxy_uid,
            belongs_to_uid,
            rule_match,
            default_action,
            probe_ok,
        ) is Proxy || spec_resolved_of(
            proxy_uid,
            belongs_to_uid,
            rule_match,
            default_action,
            probe_ok,
        ) is Reject,
{
}

} // verus!
