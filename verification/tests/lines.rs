use ruled_client::addr::Address;
use ruled_client::client::RuledClient;
use ruled_client::decimal::u64_to_dec;
use ruled_client::lifecycle::{close_line, duration_secs, interrupt_line};
use ruled_client::ResolvedAction;

#[test]
fn decimal_rendering_is_exact() {
    assert_eq!(u64_to_dec(0), "0");
    assert_eq!(u64_to_dec(7), "7");
    assert_eq!(u64_to_dec(10), "10");
    assert_eq!(u64_to_dec(12345), "12345");
    assert_eq!(u64_to_dec(u64::MAX), "18446744073709551615");
}

#[test]
fn address_text_appends_port_to_domains_only() {
    let d = Address::DomainNameAddress("example.com".to_string(), 443);
    assert_eq!(d.to_text(), "example.com:443");
    let s = Address::SocketAddress("93.184.216.34:80".to_string());
    assert_eq!(s.to_text(), "93.184.216.34:80");
}

#[test]
fn duration_is_never_negative() {
    assert_eq!(duration_secs(100, 40), 60);
    assert_eq!(duration_secs(40, 40), 0);
    // a clock that stepped backwards still yields a non-negative duration
    assert_eq!(duration_secs(40, 100), 0);
    assert_eq!(duration_secs(i64::MAX, i64::MIN), u64::MAX);
}

#[test]
fn close_line_has_the_exact_format() {
    let addr = Address::DomainNameAddress("example.com".to_string(), 443);
    let line = close_line(3, "2020-01-01 00:00:00", 42, &addr, ResolvedAction::Direct);
    assert_eq!(
        line,
        "Close connection 3, connect time: 2020-01-01 00:00:00, duration: 42s, \
         addr: example.com:443, action: Direct"
    );
}

#[test]
fn interrupt_line_has_the_exact_format() {
    let addr = Address::SocketAddress("10.1.2.3:9000".to_string());
    let line = interrupt_line(
        "connection refused",
        17,
        "2020-01-01 00:00:00",
        0,
        &addr,
        ResolvedAction::Proxy,
    );
    assert_eq!(
        line,
        "Interrupt connection connection refused: 17, connect time: 2020-01-01 00:00:00, \
         duration: 0s, addr: 10.1.2.3:9000, action: Proxy"
    );
}

#[test]
fn finished_connection_line_carries_its_connect_time() {
    let mut client = RuledClient::new(None, 5, vec!["a".to_string()]);
    let secs: i64 = 1600000000;
    let addr = Address::DomainNameAddress("example.com".to_string(), 443);
    let id = client.register_at(addr, ResolvedAction::Proxy, secs);
    let line = client.finish_connection(id, None).expect("a closed line");
    let expected_ts = match chrono::TimeZone::timestamp_opt(&chrono::Local, secs, 0) {
        chrono::LocalResult::Single(t) => t.format("%Y-%m-%d %H:%M:%S").to_string(),
        _ => String::new(),
    };
    assert_ne!(expected_ts, "");
    assert!(line.starts_with("Close connection 0, connect time: "));
    assert!(line.contains(&expected_ts));
    assert!(line.ends_with(", addr: example.com:443, action: Proxy"));
}
