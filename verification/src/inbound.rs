use vstd::prelude::*;

use crate::address::SocketAddress;
use crate::io::IoErrorClass;
use crate::text::contains_char;
use crate::tls::{
    acceptor_steps, build_acceptor, no_nul, setup_failure, TlsAcceptor, TlsConfig, TlsSetupError,
};

verus! {

/// The two read timeouts that apply to every accepted connection, in
/// nanoseconds.
#[derive(Debug, Clone, Copy, PartialEq, Eq, Structural)]
pub struct TimeoutConfig {
    pub header_read_nanos: u128,
    pub idle_nanos: u128,
}

/// Where to listen, and how (plaintext or TLS-terminated).
#[derive(Debug, Clone)]
pub enum ListenAddr {
    Http(SocketAddress),
    Https { addr: SocketAddress, tls: TlsConfig },
}

/// Whether the TLS files of `addr`, if it has any, can be handed to OpenSSL.
pub open spec fn listen_paths_ok(addr: ListenAddr) -> bool {
    match addr {
        ListenAddr::Http(_) => true,
        ListenAddr::Https { tls, .. } => no_nul(tls.cert_path@) && no_nul(tls.key_path@),
    }
}

/// Checks `listen_paths_ok`: whether the TLS files of `addr`, if it has any,
/// are named without NUL characters.
pub fn listen_paths_usable(addr: &ListenAddr) -> (ok: bool)
    ensures
        ok == listen_paths_ok(*addr),
{
    match addr {
        ListenAddr::Http(_) => true,
        ListenAddr::Https { tls, .. } => !contains_char(tls.cert_path.as_str(), '\0') && !contains_char(
            tls.key_path.as_str(),
            '\0',
        ),
    }
}

/// Works out what binding a listener takes: the socket address, and for a
/// TLS listener the acceptor built from its certificate and key. A plaintext
/// listener always succeeds without an acceptor; a TLS listener either gets an
/// acceptor built from `acceptor_steps` or fails with `build_acceptor`'s error,
/// handed on unchanged.
pub fn prepare_listener(addr: ListenAddr) -> (res: Result<(SocketAddress, Option<TlsAcceptor>), TlsSetupError>)
    requires
        listen_paths_ok(addr),
    ensures
        match addr {
            ListenAddr::Http(a) => res matches Ok((b, acceptor)) && b == a && acceptor is None,
            ListenAddr::Https { addr: a, tls } => match res {
                Ok((b, acceptor)) => b == a && (acceptor matches Some(acc) && acc.steps()
                    == acceptor_steps(tls)),
                Err(e) => setup_failure(tls, e),
            },
        },
{
    match addr {
        ListenAddr::Http(a) => Ok((a, None)),
        ListenAddr::Https { addr: a, tls } => match build_acceptor(&tls) {
            Ok(acceptor) => Ok((a, Some(acceptor))),
            Err(e) => Err(e),
        },
    }
}

/// How long the accept loop pauses after a failed accept, in milliseconds:
/// an aborted or interrupted accept is retried at once; any other error is
/// reported and retried after 50 ms.
pub fn pause_after_accept_error(class: IoErrorClass) -> (millis: u64)
    ensures
        millis == (if class == IoErrorClass::ConnectionAborted || class == IoErrorClass::Interrupted {
            0u64
        } else {
            50u64
        }),
{
    match class {
        IoErrorClass::ConnectionAborted | IoErrorClass::Interrupted => 0,
        _ => 50,
    }
}


/// A plaintext listener's paths are always usable; a TLS listener's are
/// usable exactly when neither the certificate path nor the key path holds a
/// NUL character, whatever else they are (equal paths included).
pub proof fn lemma_usable_paths_are_nul_free(addr: ListenAddr)
    ensures
        match addr {
            ListenAddr::Http(_) => listen_paths_ok(addr),
            ListenAddr::Https { tls, .. } => listen_paths_ok(addr) <==> (!tls.cert_path@.contains('\0')
                && !tls.key_path@.contains('\0')),
        },
{
}

} // verus!
