use std::cell::RefCell;
use std::collections::VecDeque;
use std::io::{Read, Write};
use std::rc::Rc;

use openssl::asn1::Asn1Time;
use openssl::hash::MessageDigest;
use openssl::pkey::PKey;
use openssl::rsa::Rsa;
use openssl::ssl::{Ssl, SslAcceptor, SslConnector, SslMethod, SslStream, SslVerifyMode, SslVersion};
use openssl::x509::{X509NameBuilder, X509};

use proxy_server::tls::{build_acceptor, TlsConfig};

/// A self-signed certificate and its key, written to temporary files.
fn self_signed_cert() -> (tempfile::NamedTempFile, tempfile::NamedTempFile) {
    let rsa = Rsa::generate(2048).expect("generate RSA key");
    let key = PKey::from_rsa(rsa).expect("wrap RSA key");
    let mut name_builder = X509NameBuilder::new().expect("create name builder");
    name_builder.append_entry_by_text("CN", "localhost").expect("set CN");
    let name = name_builder.build();
    let mut builder = X509::builder().expect("create x509 builder");
    builder.set_version(2).expect("set version");
    builder.set_subject_name(&name).expect("set subject");
    builder.set_issuer_name(&name).expect("set issuer");
    builder.set_pubkey(&key).expect("set pubkey");
    builder
        .set_not_before(&Asn1Time::days_from_now(0).expect("compute not_before"))
        .expect("set not_before");
    builder
        .set_not_after(&Asn1Time::days_from_now(1).expect("compute not_after"))
        .expect("set not_after");
    builder.sign(&key, MessageDigest::sha256()).expect("sign certificate");
    let cert = builder.build();

    let mut cert_file = tempfile::NamedTempFile::new().expect("create cert file");
    cert_file.write_all(&cert.to_pem().expect("encode cert")).expect("write cert");
    let mut key_file = tempfile::NamedTempFile::new().expect("create key file");
    key_file
        .write_all(&key.private_key_to_pem_pkcs8().expect("encode key"))
        .expect("write key");
    (cert_file, key_file)
}

fn test_acceptor() -> (SslAcceptor, tempfile::NamedTempFile, tempfile::NamedTempFile) {
    let (cert, key) = self_signed_cert();
    let config = TlsConfig {
        cert_path: cert.path().to_str().unwrap().to_string(),
        key_path: key.path().to_str().unwrap().to_string(),
    };
    let acceptor = build_acceptor(&config).expect("acceptor should build").into_inner();
    (acceptor, cert, key)
}

/// One direction of an in-memory connection.
type Queue = Rc<RefCell<VecDeque<u8>>>;

struct Pipe {
    rx: Queue,
    tx: Queue,
}

impl Read for Pipe {
    fn read(&mut self, buf: &mut [u8]) -> std::io::Result<usize> {
        let mut q = self.rx.borrow_mut();
        if q.is_empty() {
            return Err(std::io::ErrorKind::WouldBlock.into());
        }
        let n = buf.len().min(q.len());
        for b in buf.iter_mut().take(n) {
            *b = q.pop_front().unwrap();
        }
        Ok(n)
    }
}

impl Write for Pipe {
    fn write(&mut self, buf: &[u8]) -> std::io::Result<usize> {
        self.tx.borrow_mut().extend(buf.iter().copied());
        Ok(buf.len())
    }

    fn flush(&mut self) -> std::io::Result<()> {
        Ok(())
    }
}

/// Runs a handshake between `acceptor` and `connector` over memory; returns
/// the server side when both sides complete.
fn handshake(acceptor: &SslAcceptor, connector: SslConnector) -> Option<SslStream<Pipe>> {
    let a: Queue = Rc::new(RefCell::new(VecDeque::new()));
    let b: Queue = Rc::new(RefCell::new(VecDeque::new()));
    let server_ssl = Ssl::new(acceptor.context()).unwrap();
    let mut server = SslStream::new(server_ssl, Pipe { rx: a.clone(), tx: b.clone() }).unwrap();
    let client_ssl = connector.configure().unwrap().into_ssl("localhost").unwrap();
    let mut client = SslStream::new(client_ssl, Pipe { rx: b, tx: a }).unwrap();
    let (mut client_done, mut server_done) = (false, false);
    for _ in 0..50 {
        if !client_done {
            client_done = client.connect().is_ok();
        }
        if !server_done {
            server_done = server.accept().is_ok();
        }
        if client_done && server_done {
            return Some(server);
        }
    }
    None
}

#[test]
fn acceptor_chooses_http1_1_over_h2() {
    let (acceptor, _cert, _key) = test_acceptor();
    let mut connector = SslConnector::builder(SslMethod::tls()).unwrap();
    connector.set_verify(SslVerifyMode::NONE);
    connector.set_alpn_protos(b"\x02h2\x08http/1.1").unwrap();
    let server = handshake(&acceptor, connector.build()).expect("handshake should complete");
    assert_eq!(server.ssl().selected_alpn_protocol(), Some(&b"http/1.1"[..]));
}

#[test]
fn acceptor_completes_a_tls1_0_handshake() {
    let (acceptor, _cert, _key) = test_acceptor();
    let mut connector = SslConnector::builder(SslMethod::tls()).unwrap();
    connector.set_verify(SslVerifyMode::NONE);
    connector.set_max_proto_version(Some(SslVersion::TLS1)).unwrap();
    connector.set_security_level(0);
    let server = handshake(&acceptor, connector.build()).expect("TLS 1.0 handshake should complete");
    assert_eq!(server.ssl().version2(), Some(SslVersion::TLS1));
}
