use habitat_common_types::env_config::{configured_value, EnvConfig};
use habitat_common_types::error::Error;
use habitat_common_types::event_stream::{AutomateAuthToken, EventStreamConnectMethod};
use habitat_common_types::listen::{GossipListenAddr, HttpListenAddr, ListenCtlAddr};
use habitat_common_types::metadata::EventStreamMetadata;
use habitat_common_types::net::{IpAddress, Ipv4Address, SocketAddress};
use std::num::ParseIntError;

#[test]
fn cannot_parse_from_empty_string() {
    assert!("".parse::<AutomateAuthToken>().is_err())
}

#[test]
fn local_addr_for_gossip_listen_addr_works_for_unspecified_address() {
    let listen_addr = GossipListenAddr::default();
    assert!(listen_addr.0.ip.is_unspecified());

    let local_addr = listen_addr.local_addr();
    assert!(local_addr.0.ip.is_loopback());
}

#[test]
fn local_addr_for_gossip_listen_addr_returns_same_ip_for_a_specified_address() {
    let mut listen_addr = GossipListenAddr::default();
    listen_addr.set_ip(IpAddress::v4(192, 168, 1, 1));
    assert!(!listen_addr.0.ip.is_loopback());

    let local_addr = listen_addr.local_addr();
    assert_eq!(listen_addr, local_addr);
}

#[derive(Debug, Clone, Copy, PartialEq, PartialOrd, Eq)]
struct Thingie(u64);

impl EnvConfig for Thingie {
    fn spec_default() -> Thingie {
        Thingie(2112)
    }

    fn envvar() -> &'static str {
        "HAB_TESTING_THINGIE"
    }

    fn default_value() -> Thingie {
        Thingie(2112)
    }
}

fn lookup(raw: Option<&str>) -> Option<Result<Thingie, ParseIntError>> {
    raw.map(|s| s.parse::<u64>().map(Thingie))
}

#[test]
fn no_env_var_yields_default() {
    assert_eq!(configured_value::<Thingie, ParseIntError>(lookup(None)), Thingie(2112));
    assert_eq!(configured_value::<Thingie, ParseIntError>(lookup(None)), Thingie::default_value());
}

#[test]
fn parsable_env_var_yields_parsed_value() {
    assert_eq!(configured_value(lookup(Some("123"))), Thingie(123));
    assert_ne!(configured_value(lookup(Some("123"))), Thingie::default_value());
}

#[test]
fn unparsable_env_var_yields_default() {
    assert_eq!(configured_value(lookup(Some("I'm not a number"))), Thingie::default_value());
}

#[test]
fn env_var_name_is_the_types_own() {
    assert_eq!(Thingie::envvar(), "HAB_TESTING_THINGIE");
    assert_eq!(GossipListenAddr::envvar(), "HAB_LISTEN_GOSSIP");
    assert_eq!(HttpListenAddr::envvar(), "HAB_LISTEN_HTTP");
    assert_eq!(ListenCtlAddr::envvar(), "HAB_LISTEN_CTL");
}

#[test]
fn address_types_resolve_to_their_defaults_or_given_value() {
    let none: Option<Result<GossipListenAddr, ()>> = None;
    assert_eq!(configured_value(none), GossipListenAddr::default());
    let bad: Option<Result<HttpListenAddr, ()>> = Some(Err(()));
    assert_eq!(configured_value(bad), HttpListenAddr::default());
    let given = ListenCtlAddr::new(Ipv4Address(10, 0, 0, 3), 8000);
    assert_eq!(configured_value::<ListenCtlAddr, ()>(Some(Ok(given))), given);
}

#[test]
fn auth_token_renders_what_it_was_built_from() {
    let t = AutomateAuthToken::from_str("abc123token").unwrap();
    assert_eq!(t.to_string(), "abc123token");
    let one = AutomateAuthToken::from_str("x").unwrap();
    assert_eq!(one.clone().to_string(), "x");
}

#[test]
fn auth_token_validation_names_the_empty_input() {
    assert_eq!(AutomateAuthToken::validate("abc".to_string()), Ok(()));
    assert_eq!(
        AutomateAuthToken::validate(String::new()),
        Err("Invalid event stream token provided: ''".to_string())
    );
    match AutomateAuthToken::from_str("") {
        Err(Error::InvalidEventStreamToken(s)) => assert_eq!(s, ""),
        Ok(_) => panic!("an empty token was accepted"),
    }
}

#[test]
fn error_message_quotes_the_token() {
    let e = Error::InvalidEventStreamToken("tok".to_string());
    assert_eq!(e.message(), "Invalid event stream token provided: 'tok'");
}

#[test]
fn metadata_token_splits_into_key_and_value() {
    assert_eq!(
        EventStreamMetadata::split_raw("foo=bar"),
        Ok(("foo".to_string(), "bar".to_string()))
    );
    assert_eq!(EventStreamMetadata::validate("a=b".to_string()), Ok(()));
    assert_eq!(
        EventStreamMetadata::split_validated("key=a value"),
        ("key".to_string(), "a value".to_string())
    );
}

#[test]
fn metadata_token_of_the_wrong_shape_is_rejected() {
    for raw in ["", "=", "foo", "foo=", "=bar", "a=b=c", "a==b", "ab="] {
        let expected = format!(
            "Invalid key-value pair given (must be '='-delimited pair of non-empty strings): {}",
            raw
        );
        assert_eq!(EventStreamMetadata::split_raw(raw), Err(expected.clone()));
        assert_eq!(EventStreamMetadata::validate(raw.to_string()), Err(expected));
    }
}

#[test]
fn metadata_collects_pairs_in_order() {
    let values = vec!["a=1".to_string(), "b=2".to_string(), "a=3".to_string()];
    let m = EventStreamMetadata::from_validated(&values);
    assert_eq!(
        m.into_pairs(),
        vec![
            ("a".to_string(), "1".to_string()),
            ("b".to_string(), "2".to_string()),
            ("a".to_string(), "3".to_string()),
        ]
    );
    assert!(EventStreamMetadata::from_validated(&vec![]).into_pairs().is_empty());
}

#[test]
fn connect_method_zero_is_immediate() {
    let m: EventStreamConnectMethod = "0".parse().unwrap();
    assert_eq!(m, EventStreamConnectMethod::Immediate);
    assert_eq!(m.timeout_secs(), None);
}

#[test]
fn connect_method_positive_is_a_timeout() {
    let m = EventStreamConnectMethod::from_str("5").unwrap();
    assert_eq!(m, EventStreamConnectMethod::Timeout { secs: 5 });
    assert_eq!(m.timeout_secs(), Some(5));
    assert_eq!(
        EventStreamConnectMethod::from_str("+7"),
        Ok(EventStreamConnectMethod::Timeout { secs: 7 })
    );
    assert_eq!(
        EventStreamConnectMethod::from_str("18446744073709551615"),
        Ok(EventStreamConnectMethod::Timeout { secs: u64::MAX })
    );
}

#[test]
fn connect_method_rejects_what_is_not_a_u64() {
    for raw in ["abc", "", "-1", " 5", "5 ", "+", "18446744073709551616", "1.5"] {
        assert!(EventStreamConnectMethod::from_str(raw).is_err(), "{}", raw);
    }
}

#[test]
fn local_only_gossip_is_127_0_0_2_on_the_default_port() {
    let a = GossipListenAddr::local_only();
    assert_eq!(a.ip(), IpAddress::v4(127, 0, 0, 2));
    assert_ne!(a.ip(), IpAddress::loopback());
    assert_eq!(a.port(), 9638);
    assert_eq!(GossipListenAddr::DEFAULT_PORT, 9638);
}

#[test]
fn gossip_default_local_addr_is_loopback_on_same_port() {
    let d = GossipListenAddr::default();
    assert_eq!(d.socket_addr(), SocketAddress::new(IpAddress::v4(0, 0, 0, 0), 9638));
    let l = d.local_addr();
    assert_eq!(l.socket_addr(), SocketAddress::new(IpAddress::v4(127, 0, 0, 1), 9638));
}

#[test]
fn gossip_local_addr_of_unspecified_v6_and_other_port() {
    let mut a = GossipListenAddr::default();
    a.set_ip(IpAddress::V6(0));
    a.set_port(7000);
    assert_eq!(a.local_addr().socket_addr(), SocketAddress::new(IpAddress::loopback(), 7000));
    let mut b = GossipListenAddr::default();
    b.set_ip(IpAddress::V6(1));
    assert_eq!(b.local_addr(), b);
}

#[test]
fn http_and_control_defaults() {
    let h = HttpListenAddr::default();
    assert_eq!(h.socket_addr(), SocketAddress::new(IpAddress::unspecified(), 9631));
    let c = ListenCtlAddr::default();
    assert_eq!(c.ip(), IpAddress::v4(127, 0, 0, 1));
    assert_eq!(c.port(), 9632);
    let mut n = HttpListenAddr::new(IpAddress::v4(10, 1, 2, 3), 80);
    assert_eq!(n.port(), 80);
    n.set_port(81);
    n.set_ip(IpAddress::V6(5));
    assert_eq!(n.socket_addr(), SocketAddress::new(IpAddress::V6(5), 81));
    let c2 = ListenCtlAddr::new(Ipv4Address(192, 168, 0, 9), 1234);
    assert_eq!(c2.ip(), IpAddress::V4(Ipv4Address(192, 168, 0, 9)));
    assert_eq!(c2.socket_addr().port, 1234);
}

#[test]
fn ip_predicates() {
    assert!(IpAddress::unspecified().is_unspecified());
    assert!(IpAddress::V6(0).is_unspecified());
    assert!(!IpAddress::v4(0, 0, 0, 1).is_unspecified());
    assert!(IpAddress::v4(127, 9, 9, 9).is_loopback());
    assert!(IpAddress::V6(1).is_loopback());
    assert!(!IpAddress::v4(128, 0, 0, 1).is_loopback());
}
