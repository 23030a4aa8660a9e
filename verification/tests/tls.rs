use proxy_server::tls::{
    acceptor_settings, build_acceptor, choose_alpn, setup_error, AcceptorSetting, FileFormat,
    LegacyVersionOption, TlsConfig, TlsSetupError, TlsVersion,
};

#[test]
fn missing_certificate_file_is_a_clear_error() {
    let result = build_acceptor(&TlsConfig {
        cert_path: "/nonexistent/cert.pem".into(),
        key_path: "/nonexistent/key.pem".into(),
    });

    assert!(result.is_err());
}

#[test]
fn missing_certificate_error_names_the_certificate_path() {
    let result = build_acceptor(&TlsConfig {
        cert_path: "/nonexistent/cert.pem".into(),
        key_path: "/nonexistent/key.pem".into(),
    });
    match result {
        Err(TlsSetupError::Certificate { path, .. }) => assert_eq!(path, "/nonexistent/cert.pem"),
        Err(other) => panic!("expected a certificate error, got {other:?}"),
        Ok(_) => panic!("a missing certificate must fail"),
    }
}

#[test]
fn alpn_picks_http1_1_over_h2() {
    let client: &[u8] = b"\x02h2\x08http/1.1";
    assert_eq!(choose_alpn(client), Some(&b"http/1.1"[..]));
}

#[test]
fn alpn_refuses_a_client_without_http1_1() {
    let client: &[u8] = b"\x02h2\x06spdy/1";
    assert_eq!(choose_alpn(client), None);
}

#[test]
fn alpn_accepts_http1_1_alone() {
    let client: &[u8] = b"\x08http/1.1";
    assert_eq!(choose_alpn(client), Some(&b"http/1.1"[..]));
}

#[test]
fn acceptor_settings_are_the_legacy_friendly_http1_1_ones() {
    let settings = acceptor_settings(&TlsConfig { cert_path: "c.pem".into(), key_path: "k.pem".into() });
    assert_eq!(settings.len(), 8);
    assert!(matches!(settings[0], AcceptorSetting::MinProtoVersion(TlsVersion::Tls1)));
    assert!(matches!(settings[1], AcceptorSetting::ClearOption(LegacyVersionOption::NoTlsV1)));
    assert!(matches!(settings[2], AcceptorSetting::ClearOption(LegacyVersionOption::NoTlsV1_1)));
    assert!(matches!(&settings[3], AcceptorSetting::CipherList(c) if c == "DEFAULT:@SECLEVEL=0"));
    assert!(matches!(&settings[4], AcceptorSetting::CertificateFile(p, FileFormat::Pem) if p == "c.pem"));
    assert!(matches!(&settings[5], AcceptorSetting::PrivateKeyFile(p, FileFormat::Pem) if p == "k.pem"));
    assert!(matches!(&settings[6], AcceptorSetting::AlpnProtocols(b) if b.as_slice() == b"\x08http/1.1"));
    assert!(matches!(settings[7], AcceptorSetting::AlpnSelectHttp11));
}

#[test]
fn setup_errors_name_the_failing_file() {
    let cert = AcceptorSetting::CertificateFile("c.pem".into(), FileFormat::Pem);
    let key = AcceptorSetting::PrivateKeyFile("k.pem".into(), FileFormat::Pem);
    let other = AcceptorSetting::MinProtoVersion(TlsVersion::Tls1);
    assert!(matches!(setup_error(&cert, openssl::error::ErrorStack::get()), TlsSetupError::Certificate { path, .. } if path == "c.pem"));
    assert!(matches!(setup_error(&key, openssl::error::ErrorStack::get()), TlsSetupError::PrivateKey { path, .. } if path == "k.pem"));
    assert!(matches!(setup_error(&other, openssl::error::ErrorStack::get()), TlsSetupError::Context(_)));
}
