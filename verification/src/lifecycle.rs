//! Lifecycle lines: the one human-readable line emitted per connection when
//! it is deregistered — "Close connection ..." on success, "Interrupt
//! connection ..." on a backend failure — plus the duration arithmetic and
//! the wall-clock readings (the latter through chrono, taken on trust).

use crate::action::ResolvedAction;
use crate::addr::{spec_address_text, Address};
use crate::decimal::{spec_dec, u64_to_dec};
use vstd::prelude::*;
use vstd::string::StringExecFns;
use vstd::string::StrSliceExecFns;

verus! {

/// Relies on chrono::Local::now and chrono::DateTime::timestamp: the
/// current wall-clock time, as whole seconds since the Unix epoch. Nothing
/// is assumed of the value: callers hold for every reading.
#[verifier::external_body]
pub(crate) fn now_timestamp() -> (t: i64) {
    chrono::Local::now().timestamp()
}

/// Relies on chrono::TimeZone::timestamp_opt for the local zone and
/// chrono::DateTime::format: the instant `secs` rendered as
/// `%Y-%m-%d %H:%M:%S` local time, or empty when the zone cannot map the
/// instant to a single local date-time. The text depends on the machine's
/// time zone, so nothing is assumed of it.
#[verifier::external_body]
pub(crate) fn timestamp_text(secs: i64) -> (r: String) {
    match chrono::TimeZone::timestamp_opt(&chrono::Local, secs, 0) {
        chrono::LocalResult::Single(t) => t.format("%Y-%m-%d %H:%M:%S").to_string(),
        _ => String::new(),
    }
}

/// A connection's duration in whole seconds: the wall-clock difference
/// between deregistration and registration, never negative even if the
/// clock stepped backwards in between.
pub open spec fn spec_duration(now: int, connect: int) -> int {
    if now >= connect {
        now - connect
    } else {
        0
    }
}

/// Compute a connection's duration in whole seconds (clamped at zero).
pub fn duration_secs(now: i64, connect: i64) -> (d: u64)
    ensures
        d as int == spec_duration(now as int, connect as int),
{
    if now >= connect {
        let diff: i128 = (now as i128) - (connect as i128);
        diff as u64
    } else {
        0
    }
}

/// The label a resolved action is printed as.
pub open spec fn spec_action_label(a: ResolvedAction) -> Seq<char> {
    match a {
        ResolvedAction::Direct => "Direct"@,
        ResolvedAction::Proxy => "Proxy"@,
        ResolvedAction::Reject => "Reject"@,
    }
}

/// Render a resolved action's label.
pub fn action_label(a: ResolvedAction) -> (r: &'static str)
    ensures
        r@ == spec_action_label(a),
{
    match a {
        ResolvedAction::Direct => "Direct",
        ResolvedAction::Proxy => "Proxy",
        ResolvedAction::Reject => "Reject",
    }
}

/// The common tail of both lifecycle lines: connect time, duration,
/// destination and action.
pub open spec fn spec_lifecycle_tail(
    ts: Seq<char>,
    dur: nat,
    addr: Seq<char>,
    action: ResolvedAction,
) -> Seq<char> {
    ", connect time: "@ + ts + ", duration: "@ + spec_dec(dur) + "s, addr: "@ + addr
        + ", action: "@ + spec_action_label(action)
}

/// The line emitted when a connection closes without a backend error.
pub open spec fn spec_close_line(
    id: u64,
    ts: Seq<char>,
    dur: nat,
    addr: Seq<char>,
    action: ResolvedAction,
) -> Seq<char> {
    "Close connection "@ + spec_dec(id as nat) + spec_lifecycle_tail(ts, dur, addr, action)
}

/// The line emitted when the backend reported a failure: the same fields,
/// preceded by the error's text.
pub open spec fn spec_interrupt_line(
    err: Seq<char>,
    id: u64,
    ts: Seq<char>,
    dur: nat,
    addr: Seq<char>,
    action: ResolvedAction,
) -> Seq<char> {
    "Interrupt connection "@ + err + ": "@ + spec_dec(id as nat) + spec_lifecycle_tail(
        ts,
        dur,
        addr,
        action,
    )
}

/// Append the common tail to a line under construction.
fn append_tail(s: &mut String, ts: &str, dur: u64, addr: &Address, action: ResolvedAction)
    ensures
        final(s)@ == old(s)@ + spec_lifecycle_tail(
            ts@,
            dur as nat,
            spec_address_text(*addr),
            action,
        ),
{
    s.append(", connect time: ");
    s.append(ts);
    s.append(", duration: ");
    let d = u64_to_dec(dur);
    s.append(d.as_str());
    s.append("s, addr: ");
    let a = addr.to_text();
    s.append(a.as_str());
    s.append(", action: ");
    s.append(action_label(action));
    proof {
        assert(s@ =~= old(s)@ + spec_lifecycle_tail(
            ts@,
            dur as nat,
            spec_address_text(*addr),
            action,
        ));
    }
}

/// Build the "Close connection ..." line.
pub fn close_line(id: u64, ts: &str, dur: u64, addr: &Address, action: ResolvedAction) -> (r:
    String)
    ensures
        r@ == spec_close_line(id, ts@, dur as nat, spec_address_text(*addr), action),
{
    let mut s = "Close connection ".to_owned();
    let d = u64_to_dec(id);
    s.append(d.as_str());
    append_tail(&mut s, ts, dur, addr, action);
    proof {
        assert(s@ =~= spec_close_line(id, ts@, dur as nat, spec_address_text(*addr), action));
    }
    s
}

/// Build the "Interrupt connection ..." line.
pub fn interrupt_line(
    err: &str,
    id: u64,
    ts: &str,
    dur: u64,
    addr: &Address,
    action: ResolvedAction,
) -> (r: String)
    ensures
        r@ == spec_interrupt_line(err@, id, ts@, dur as nat, spec_address_text(*addr), action),
{
    let mut s = "Interrupt connection ".to_owned();
    s.append(err);
    s.append(": ");
    let d = u64_to_dec(id);
    s.append(d.as_str());
    append_tail(&mut s, ts, dur, addr, action);
    proof {
        assert(s@ =~= spec_interrupt_line(
            err@,
            id,
            ts@,
            dur as nat,
            spec_address_text(*addr),
            action,
        ));
    }
    s
}

} // verus!
