use proxy_server::address::SocketAddress;
use proxy_server::inbound::{listen_paths_usable, pause_after_accept_error, prepare_listener, ListenAddr};
use proxy_server::io::IoErrorClass;
use proxy_server::tls::{TlsConfig, TlsSetupError};

#[test]
fn plaintext_listener_needs_no_acceptor() {
    let a = SocketAddress::V4 { ipv4: 0x7f00_0001, port: 0 };
    let (addr, acceptor) = prepare_listener(ListenAddr::Http(a)).unwrap();
    assert_eq!(addr, a);
    assert!(acceptor.is_none());
}

#[test]
fn tls_listener_with_missing_files_fails_setup() {
    let a = SocketAddress::V4 { ipv4: 0x7f00_0001, port: 0 };
    let tls = TlsConfig { cert_path: "/nonexistent/cert.pem".into(), key_path: "/nonexistent/key.pem".into() };
    match prepare_listener(ListenAddr::Https { addr: a, tls }) {
        Err(TlsSetupError::Certificate { path, .. }) => assert_eq!(path, "/nonexistent/cert.pem"),
        _ => panic!("a missing certificate must fail"),
    }
}

#[test]
fn aborted_and_interrupted_accepts_are_retried_at_once() {
    assert_eq!(pause_after_accept_error(IoErrorClass::ConnectionAborted), 0);
    assert_eq!(pause_after_accept_error(IoErrorClass::Interrupted), 0);
    assert_eq!(pause_after_accept_error(IoErrorClass::Other), 50);
    assert_eq!(pause_after_accept_error(IoErrorClass::TimedOut), 50);
}

#[test]
fn tls_paths_with_nul_are_not_usable() {
    let a = SocketAddress::V4 { ipv4: 0, port: 443 };
    let good = ListenAddr::Https {
        addr: a,
        tls: TlsConfig { cert_path: "/tmp/cert.pem".into(), key_path: "/tmp/key.pem".into() },
    };
    let bad = ListenAddr::Https {
        addr: a,
        tls: TlsConfig { cert_path: "/tmp/cert.pem".into(), key_path: "/tmp/k\0ey.pem".into() },
    };
    assert!(listen_paths_usable(&good));
    assert!(!listen_paths_usable(&bad));
    assert!(listen_paths_usable(&ListenAddr::Http(a)));
}
