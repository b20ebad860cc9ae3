use ruled_client::action::{backend_for, Backend};
use ruled_client::addr::Address;
use ruled_client::client::RuledClient;
use ruled_client::registry::Registry;
use ruled_client::failover::next_backend_index;
use ruled_client::resolver::{apply_probe, socket_belongs, Resolution};
use ruled_client::{Action, ResolvedAction};

fn three_backends() -> Vec<String> {
    vec!["a".to_string(), "b".to_string(), "c".to_string()]
}

#[test]
fn default_action_used_when_no_rule_matches() {
    // destination with no matching rule, default Proxy, UID filter disabled
    let client = RuledClient::new(None, 5, three_backends());
    let r = client.resolve(None, None, Action::Proxy);
    assert_eq!(r, Resolution::Decided(ResolvedAction::Proxy));
}

#[test]
fn foreign_uid_forces_direct_despite_rules() {
    let client = RuledClient::new(Some(1000), 5, three_backends());
    // the flow does not belong to the filtered UID: Direct, whatever the rule
    let r = client.resolve(Some(false), Some(Action::Reject), Action::Proxy);
    assert_eq!(r, Resolution::Decided(ResolvedAction::Direct));
    let r = client.resolve(Some(false), Some(Action::Probe), Action::Reject);
    assert_eq!(r, Resolution::Decided(ResolvedAction::Direct));
}

#[test]
fn owned_flow_follows_rules() {
    let client = RuledClient::new(Some(1000), 5, three_backends());
    let r = client.resolve(Some(true), Some(Action::Reject), Action::Proxy);
    assert_eq!(r, Resolution::Decided(ResolvedAction::Reject));
}

#[test]
fn rule_match_overrides_default() {
    let client = RuledClient::new(None, 5, three_backends());
    let r = client.resolve(None, Some(Action::Direct), Action::Reject);
    assert_eq!(r, Resolution::Decided(ResolvedAction::Direct));
}

#[test]
fn probe_decision_resolves_to_direct_or_proxy_only() {
    let client = RuledClient::new(None, 5, three_backends());
    let r = client.resolve(None, Some(Action::Probe), Action::Direct);
    assert_eq!(r, Resolution::NeedsProbe);
    // reachability confirmed -> Direct; unreachable or timed out -> Proxy
    assert_eq!(apply_probe(true), ResolvedAction::Direct);
    assert_eq!(apply_probe(false), ResolvedAction::Proxy);
}

#[test]
fn ownership_membership_is_by_local_address() {
    let locals = vec!["10.0.0.1:5000".to_string(), "10.0.0.1:6000".to_string()];
    assert!(socket_belongs(&"10.0.0.1:6000".to_string(), &locals));
    assert!(!socket_belongs(&"10.0.0.2:6000".to_string(), &locals));
    assert!(!socket_belongs(&"10.0.0.1:6000".to_string(), &Vec::new()));
}

#[test]
fn lookup_key_ignores_domain_port() {
    let d = Address::DomainNameAddress("example.com".to_string(), 443);
    assert_eq!(d.lookup_key(), "example.com");
    let s = Address::SocketAddress("93.184.216.34:443".to_string());
    assert_eq!(s.lookup_key(), "93.184.216.34:443");
}

#[test]
fn issued_ids_are_distinct_and_increasing() {
    let mut client = RuledClient::new(None, 5, three_backends());
    let a = Address::DomainNameAddress("one.example".to_string(), 80);
    let b = Address::DomainNameAddress("two.example".to_string(), 80);
    let id1 = client.register_now(a, ResolvedAction::Direct);
    let id2 = client.register_now(b, ResolvedAction::Proxy);
    assert_ne!(id1, id2);
    assert!(id1 < id2);
    assert_eq!(id1, 0);
    assert_eq!(id2, 1);
    assert_eq!(client.registry.len(), 2);
}

#[test]
fn deregistration_happens_at_most_once() {
    let mut reg = Registry::new();
    let id = reg.register(ruled_client::Connection {
        address: Address::SocketAddress("127.0.0.1:8080".to_string()),
        connect_time: 42,
        sent_bytes: 0,
        recv_bytes: 0,
        action: ResolvedAction::Proxy,
    });
    assert!(reg.contains(id));
    let rec = reg.deregister(id);
    let rec = rec.expect("first deregistration returns the record");
    assert_eq!(rec.connect_time, 42);
    assert!(matches!(rec.action, ResolvedAction::Proxy));
    assert!(!reg.contains(id));
    // a second deregistration, and one of a never-registered id, find nothing
    assert!(reg.deregister(id).is_none());
    assert!(reg.deregister(12345).is_none());
    assert_eq!(reg.len(), 0);
}

#[test]
fn ids_are_never_reused() {
    let mut reg = Registry::new();
    let conn = || ruled_client::Connection {
        address: Address::SocketAddress("127.0.0.1:8080".to_string()),
        connect_time: 0,
        sent_bytes: 0,
        recv_bytes: 0,
        action: ResolvedAction::Direct,
    };
    let id1 = reg.register(conn());
    reg.deregister(id1);
    let id2 = reg.register(conn());
    assert_ne!(id1, id2);
    assert!(id2 > id1);
}

#[test]
fn rotation_advances_by_one_modulo_len() {
    let names = three_backends();
    assert_eq!(next_backend_index(&names, &"a".to_string()), 1);
    assert_eq!(next_backend_index(&names, &"b".to_string()), 2);
    // 3 backends, current index 2 -> next index 0
    assert_eq!(next_backend_index(&names, &"c".to_string()), 0);
}

#[test]
fn unknown_backend_name_rotates_from_head() {
    // unknown current name with 3 backends -> next index 1
    assert_eq!(next_backend_index(&three_backends(), &"zzz".to_string()), 1);
}

#[test]
fn failover_triggers_only_above_threshold() {
    let client = RuledClient::new(None, 5, three_backends());
    assert_eq!(client.plan_failover(&"a".to_string(), 5), None);
    assert_eq!(client.plan_failover(&"a".to_string(), 0), None);
    // backend list [a, b, c], active a, error count max+1 -> active becomes b
    assert_eq!(client.plan_failover(&"a".to_string(), 6), Some(1));
}

#[test]
fn single_backend_rotates_to_itself() {
    let client = RuledClient::new(None, 0, vec!["only".to_string()]);
    assert_eq!(client.plan_failover(&"only".to_string(), 1), Some(0));
    assert_eq!(client.plan_failover(&"gone".to_string(), 1), Some(0));
}

#[test]
fn reject_routes_to_no_backend() {
    assert_eq!(backend_for(ResolvedAction::Reject), None);
    assert_eq!(backend_for(ResolvedAction::Direct), Some(Backend::Direct));
    assert_eq!(backend_for(ResolvedAction::Proxy), Some(Backend::Proxy));
}

#[test]
fn rejected_flow_closes_exactly_once_without_backend() {
    let mut client = RuledClient::new(None, 5, three_backends());
    let r = client.resolve(None, Some(Action::Reject), Action::Proxy);
    assert_eq!(r, Resolution::Decided(ResolvedAction::Reject));
    // no backend handler is invoked for a rejected flow
    assert_eq!(backend_for(ResolvedAction::Reject), None);
    let addr = Address::DomainNameAddress("blocked.example".to_string(), 80);
    let id = client.register_now(addr, ResolvedAction::Reject);
    let line = client.finish_connection(id, None);
    let line = line.expect("one closed lifecycle line");
    assert!(line.starts_with("Close connection 0, connect time: "));
    assert!(line.ends_with(", addr: blocked.example:80, action: Reject"));
    let dur: u64 = line
        .split(", duration: ")
        .nth(1)
        .and_then(|rest| rest.split('s').next())
        .and_then(|n| n.parse().ok())
        .expect("duration field present");
    assert!(dur < 60); // duration >= 0 holds by type; it is also freshly measured
    // exactly one deregistration: the id is gone and no second line is emitted
    assert!(!client.registry.contains(id));
    assert!(client.finish_connection(id, None).is_none());
}

#[test]
fn failed_direct_flow_emits_interrupt_line() {
    let mut client = RuledClient::new(None, 5, three_backends());
    let addr = Address::DomainNameAddress("down.example".to_string(), 443);
    let id = client.register_now(addr, ResolvedAction::Direct);
    assert_eq!(backend_for(ResolvedAction::Direct), Some(Backend::Direct));
    // the backend handler failed: the lifecycle line is the interrupted
    // variant carrying the error, and the id is gone afterwards
    let line = client.finish_connection(id, Some("connection refused"));
    let line = line.expect("one interrupted lifecycle line");
    assert!(line.starts_with("Interrupt connection connection refused: 0, connect time: "));
    assert!(line.ends_with(", addr: down.example:443, action: Direct"));
    assert!(!client.registry.contains(id));
    assert!(client.finish_connection(id, Some("connection refused")).is_none());
}
