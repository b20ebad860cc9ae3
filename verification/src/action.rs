//! Routing decisions.
//!
//! `Action` is the four-valued decision a rule can produce; `Probe` is a
//! transient value that the resolver always turns into `Direct` or `Proxy`
//! before anyone else sees it, so the action stored and dispatched on is the
//! three-valued `ResolvedAction`, and the backend actually invoked (if any)
//! is the two-valued `Backend`.

use vstd::prelude::*;

verus! {

/// A rule decision: what the rule set (or its default) says about a flow.
#[derive(Clone, Copy, Debug, PartialEq, Eq, Structural)]
pub enum Action {
    Direct,
    Proxy,
    Reject,
    Probe,
}

/// A fully resolved decision: what the dispatcher acts on. `Probe` cannot
/// occur here, so reaching dispatch with an unresolved probe is impossible
/// by construction.
#[derive(Clone, Copy, Debug, PartialEq, Eq, Structural)]
pub enum ResolvedAction {
    Direct,
    Proxy,
    Reject,
}

/// Which backend handler a flow is handed to.
#[derive(Clone, Copy, Debug, PartialEq, Eq, Structural)]
pub enum Backend {
    Direct,
    Proxy,
}

/// The backend a resolved action routes to: `Reject` routes to none.
pub open spec fn spec_backend_for(action: ResolvedAction) -> Option<Backend> {
    match action {
        ResolvedAction::Direct => Some(Backend::Direct),
        ResolvedAction::Proxy => Some(Backend::Proxy),
        ResolvedAction::Reject => None,
    }
}

/// Decide which backend handler (if any) a resolved action is dispatched to.
/// A rejected flow invokes no backend at all.
pub fn backend_for(action: ResolvedAction) -> (r: Option<Backend>)
    ensures
        r == spec_backend_for(action),
{
    match action {
        ResolvedAction::Direct => Some(Backend::Direct),
        ResolvedAction::Proxy => Some(Backend::Proxy),
        ResolvedAction::Reject => None,
    }
}

} // verus!
