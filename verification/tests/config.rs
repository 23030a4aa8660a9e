use proxy_server::address::SocketAddress;
use proxy_server::config::{
    default_header_read_secs, default_idle_secs, parse_listen, Config, ConfigError, RawBackends,
    RawConfig, RawListen, RawTimeouts,
};
use proxy_server::inbound::ListenAddr;

const SEC: u128 = 1_000_000_000;

/// Parses `a.b.c.d:port`, the only address form these tests use.
fn parse_addr(text: &str) -> Result<SocketAddress, String> {
    let (ip, port) = text.rsplit_once(':').ok_or_else(|| format!("no port in {text:?}"))?;
    let port: u16 = port.parse().map_err(|_| format!("bad port in {text:?}"))?;
    let octets: Vec<u8> = ip
        .split('.')
        .map(|o| o.parse::<u8>())
        .collect::<Result<_, _>>()
        .map_err(|_| format!("bad address {text:?}"))?;
    if octets.len() != 4 {
        return Err(format!("bad address {text:?}"));
    }
    let ipv4 = u32::from_be_bytes([octets[0], octets[1], octets[2], octets[3]]);
    Ok(SocketAddress::V4 { ipv4, port })
}

fn backend(text: &str) -> SocketAddress {
    parse_addr(text).unwrap()
}

fn listen(addr: &str) -> RawListen {
    RawListen { addr: addr.to_string(), cert_path: None, key_path: None }
}

#[test]
fn parses_a_minimal_http_only_config() {
    // [[listen]] addr = "http://127.0.0.1:9080"
    // [backends] addrs = ["127.0.0.1:8080"]
    let raw = RawConfig {
        listen: vec![listen("http://127.0.0.1:9080")],
        backends: RawBackends { addrs: vec![backend("127.0.0.1:8080")] },
        timeouts: RawTimeouts::default(),
    };

    let config = Config::from_raw(raw, &parse_addr).expect("config should parse");
    assert_eq!(config.listeners.len(), 1);
    assert!(matches!(config.listeners[0], ListenAddr::Http(_)));
    assert_eq!(config.backends.len(), 1);
    assert_eq!(config.timeouts.header_read_nanos, 10 * SEC);
    assert_eq!(config.timeouts.idle_nanos, 60 * SEC);
}

#[test]
fn parses_an_https_listener_with_explicit_timeouts() {
    let raw = RawConfig {
        listen: vec![RawListen {
            addr: "https://0.0.0.0:9443".to_string(),
            cert_path: Some("/tmp/cert.pem".to_string()),
            key_path: Some("/tmp/key.pem".to_string()),
        }],
        backends: RawBackends { addrs: vec![backend("127.0.0.1:8080"), backend("127.0.0.1:8081")] },
        timeouts: RawTimeouts { header_read_secs: 5, idle_secs: 30 },
    };

    let config = Config::from_raw(raw, &parse_addr).expect("config should parse");
    assert!(matches!(config.listeners[0], ListenAddr::Https { .. }));
    assert_eq!(config.backends.len(), 2);
    assert_eq!(config.timeouts.header_read_nanos, 5 * SEC);
    assert_eq!(config.timeouts.idle_nanos, 30 * SEC);
}

#[test]
fn rejects_an_unsupported_scheme() {
    let raw = RawConfig {
        listen: vec![listen("quic://0.0.0.0:9443")],
        backends: RawBackends { addrs: vec![backend("127.0.0.1:8080")] },
        timeouts: RawTimeouts::default(),
    };

    let err = match Config::from_raw(raw, &parse_addr) {
        Err(err) => err,
        Ok(_) => panic!("unsupported scheme must fail"),
    };
    assert!(matches!(err, ConfigError::UnsupportedScheme(scheme) if scheme == "quic"));
}

#[test]
fn rejects_an_https_listener_missing_cert_path() {
    let raw = RawConfig {
        listen: vec![RawListen {
            addr: "https://0.0.0.0:9443".to_string(),
            cert_path: None,
            key_path: Some("/tmp/key.pem".to_string()),
        }],
        backends: RawBackends { addrs: vec![backend("127.0.0.1:8080")] },
        timeouts: RawTimeouts::default(),
    };

    let err = match Config::from_raw(raw, &parse_addr) {
        Err(err) => err,
        Ok(_) => panic!("missing cert_path must fail"),
    };
    assert!(matches!(err, ConfigError::MissingCertPath(_)));
}

#[test]
fn rejects_an_empty_backend_list() {
    let raw = RawConfig {
        listen: vec![listen("http://127.0.0.1:9080")],
        backends: RawBackends { addrs: vec![] },
        timeouts: RawTimeouts::default(),
    };

    let err = match Config::from_raw(raw, &parse_addr) {
        Err(err) => err,
        Ok(_) => panic!("empty backend list must fail"),
    };
    assert!(matches!(err, ConfigError::EmptyBackends));
}

#[test]
fn default_timeouts_are_ten_and_sixty_seconds() {
    assert_eq!(default_header_read_secs(), 10);
    assert_eq!(default_idle_secs(), 60);
    let t = RawTimeouts::default();
    assert_eq!((t.header_read_secs, t.idle_secs), (10, 60));
}

#[test]
fn listen_address_without_scheme_is_refused() {
    let err = parse_listen(listen("127.0.0.1:9080"), &parse_addr).unwrap_err();
    assert!(matches!(err, ConfigError::MissingScheme(a) if a == "127.0.0.1:9080"));
}

#[test]
fn invalid_address_is_reported_before_the_scheme() {
    let err = parse_listen(listen("quic://not-an-address"), &parse_addr).unwrap_err();
    assert!(matches!(err, ConfigError::InvalidAddr(a, _) if a == "quic://not-an-address"));
}

#[test]
fn https_listener_without_key_path_is_refused() {
    let raw = RawListen {
        addr: "https://127.0.0.1:9443".to_string(),
        cert_path: Some("/tmp/cert.pem".to_string()),
        key_path: None,
    };
    let err = parse_listen(raw, &parse_addr).unwrap_err();
    assert!(matches!(err, ConfigError::MissingKeyPath(_)));
}

#[test]
fn scheme_is_split_at_the_first_separator() {
    // Only the first "://" separates the scheme; the rest goes to the parser.
    let seen = std::cell::RefCell::new(String::new());
    let recording = |text: &str| {
        *seen.borrow_mut() = text.to_string();
        Err::<SocketAddress, String>("unparsed".to_string())
    };
    let err = parse_listen(listen("http://a://b"), &recording).unwrap_err();
    assert_eq!(*seen.borrow(), "a://b");
    assert!(matches!(err, ConfigError::InvalidAddr(_, why) if why == "unparsed"));
}

#[test]
fn listeners_and_backends_keep_their_order() {
    let raw = RawConfig {
        listen: vec![listen("http://127.0.0.1:1"), listen("http://127.0.0.1:2")],
        backends: RawBackends { addrs: vec![backend("10.0.0.1:80"), backend("10.0.0.2:80")] },
        timeouts: RawTimeouts::default(),
    };
    let config = Config::from_raw(raw, &parse_addr).unwrap();
    let ports: Vec<u16> = config
        .listeners
        .iter()
        .map(|l| match l {
            ListenAddr::Http(a) => a.port(),
            ListenAddr::Https { addr, .. } => addr.port(),
        })
        .collect();
    assert_eq!(ports, vec![1, 2]);
    assert_eq!(config.backends[0].addr, backend("10.0.0.1:80"));
    assert_eq!(config.backends[1].addr, backend("10.0.0.2:80"));
}

#[test]
fn first_refused_listener_gives_the_error() {
    let raw = RawConfig {
        listen: vec![listen("http://127.0.0.1:1"), listen("ftp://127.0.0.1:2"), listen("nope")],
        backends: RawBackends { addrs: vec![backend("10.0.0.1:80")] },
        timeouts: RawTimeouts::default(),
    };
    let err = Config::from_raw(raw, &parse_addr).unwrap_err();
    assert!(matches!(err, ConfigError::UnsupportedScheme(s) if s == "ftp"));
}
