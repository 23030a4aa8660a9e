use vstd::prelude::*;

use openssl::error::ErrorStack;
use openssl::ssl::{SslAcceptor, SslAcceptorBuilder, SslMethod};

use crate::openssl_calls::{
    build, clear_option, mozilla_intermediate_v5, set_alpn_protos, set_alpn_select_callback,
    set_certificate_file, set_cipher_list, set_min_proto_version, set_private_key_file, tls_method,
    Applied,
};

verus! {

#[verifier::external_type_specification]
#[verifier::external_body]
pub struct ExErrorStack(ErrorStack);

#[verifier::external_type_specification]
#[verifier::external_body]
pub struct ExSslAcceptor(SslAcceptor);

#[verifier::external_type_specification]
#[verifier::external_body]
pub struct ExSslAcceptorBuilder(SslAcceptorBuilder);

#[verifier::external_type_specification]
#[verifier::external_body]
pub struct ExSslMethod(SslMethod);

/// The ALPN protocol list the acceptor offers, in ALPN wire format: the
/// single protocol `http/1.1`.
const ALPN_WIRE_FORMAT: [u8; 9] = [8, 104, 116, 116, 112, 47, 49, 46, 49];

/// The name `http/1.1`, as bytes.
pub open spec fn http11() -> Seq<u8> {
    seq![104u8, 116u8, 116u8, 112u8, 47u8, 49u8, 46u8, 49u8]
}

/// Decodes an ALPN protocol list: a sequence of non-empty names, each
/// preceded by its length in one byte. `None` when `wire` is not such a list.
pub open spec fn alpn_protocols(wire: Seq<u8>) -> Option<Seq<Seq<u8>>>
    decreases wire.len(),
{
    if wire.len() == 0 {
        Some(Seq::empty())
    } else {
        let n = wire[0] as int;
        if n == 0 || 1 + n > wire.len() {
            None
        } else {
            match alpn_protocols(wire.subrange(1 + n, wire.len() as int)) {
                Some(rest) => Some(seq![wire.subrange(1, 1 + n)] + rest),
                None => None,
            }
        }
    }
}

/// The first protocol of `server` that `client` also lists.
pub open spec fn first_shared(server: Seq<Seq<u8>>, client: Seq<Seq<u8>>) -> Option<Seq<u8>>
    decreases server.len(),
{
    if server.len() == 0 {
        None
    } else if client.contains(server[0]) {
        Some(server[0])
    } else {
        first_shared(server.drop_first(), client)
    }
}

/// Calls `openssl::ssl::select_next_proto`, which selects the first protocol
/// of `server` that `client` also supports. Claimed: when both lists are
/// well-formed ALPN lists, the result holds the bytes of that protocol, or is
/// `None` when they share none. Nothing is claimed for malformed lists. The
/// lengths are handed to OpenSSL as `u32`, so `requires` keeps both lists
/// within `u32::MAX` bytes, where they reach OpenSSL whole.
#[verifier::external_body]
fn select_next_proto<'a>(server: &'a [u8], client: &'a [u8]) -> (res: Option<&'a [u8]>)
    requires
        server@.len() <= u32::MAX,
        client@.len() <= u32::MAX,
    ensures
        alpn_protocols(server@) is Some && alpn_protocols(client@) is Some ==> match res {
            Some(p) => first_shared(alpn_protocols(server@)->0, alpn_protocols(client@)->0)
                == Some(p@),
            None => first_shared(alpn_protocols(server@)->0, alpn_protocols(client@)->0) is None,
        },
{
    openssl::ssl::select_next_proto(server, client)
}

proof fn lemma_offered_protocols()
    ensures
        alpn_protocols(ALPN_WIRE_FORMAT@) == Some(seq![http11()]),
{
    let w = ALPN_WIRE_FORMAT@;
    assert(w.subrange(1, 9) =~= http11());
    assert(w.subrange(9, 9) =~= Seq::<u8>::empty());
    assert(alpn_protocols(w.subrange(9, 9)) == Some(Seq::<Seq<u8>>::empty()));
    assert(seq![http11()] + Seq::<Seq<u8>>::empty() =~= seq![http11()]);
}

/// Picks the protocol to speak with a client that offered `client`: the
/// acceptor speaks HTTP/1.1 only, so for a well-formed list the answer is
/// `http/1.1` when the client offers it and none otherwise.
pub fn choose_alpn<'a>(client: &'a [u8]) -> (res: Option<&'a [u8]>)
    requires
        client@.len() <= u32::MAX,
    ensures
        alpn_protocols(client@) is Some ==> match res {
            Some(p) => p@ == http11() && (alpn_protocols(client@)->0).contains(http11()),
            None => !(alpn_protocols(client@)->0).contains(http11()),
        },
{
    let offered: &'static [u8; 9] = &ALPN_WIRE_FORMAT;
    let res = select_next_proto(offered.as_slice(), client);
    proof {
        lemma_offered_protocols();
        if alpn_protocols(client@) is Some {
            // Only one protocol is offered: past it, nothing is shared.
            assert(first_shared(seq![http11()].drop_first(), alpn_protocols(client@)->0) is None);
        }
    }
    res
}


/// Where to find the certificate and private key for a TLS listener.
#[derive(Debug, Clone)]
pub struct TlsConfig {
    pub cert_path: String,
    pub key_path: String,
}

/// Why a TLS acceptor could not be set up.
#[derive(Debug)]
pub enum TlsSetupError {
    /// Configuring the TLS context failed.
    Context(ErrorStack),
    /// The certificate at `path` could not be loaded.
    Certificate { path: String, source: ErrorStack },
    /// The private key at `path` could not be loaded.
    PrivateKey { path: String, source: ErrorStack },
}

/// A TLS protocol version.
#[derive(Debug, Clone, Copy, PartialEq, Eq, Structural)]
pub enum TlsVersion {
    Tls1,
    Tls1_1,
    Tls1_2,
    Tls1_3,
}

/// A context option that switches off a legacy protocol version.
#[derive(Debug, Clone, Copy, PartialEq, Eq, Structural)]
pub enum LegacyVersionOption {
    NoTlsV1,
    NoTlsV1_1,
}

/// The encoding of a certificate or key file.
#[derive(Debug, Clone, Copy, PartialEq, Eq, Structural)]
pub enum FileFormat {
    Pem,
    Asn1,
}

/// Whether `s` holds no NUL character (OpenSSL takes file names and cipher
/// lists as C strings).
pub open spec fn no_nul(s: Seq<char>) -> bool {
    !s.contains('\0')
}

/// One setting handed to OpenSSL while building the acceptor.
#[derive(Debug, Clone)]
pub enum AcceptorSetting {
    /// The lowest protocol version accepted.
    MinProtoVersion(TlsVersion),
    /// A legacy "no TLS v1*" option to clear.
    ClearOption(LegacyVersionOption),
    /// The cipher list for protocols before TLS 1.3.
    CipherList(String),
    /// The certificate file to load.
    CertificateFile(String, FileFormat),
    /// The private-key file to load.
    PrivateKeyFile(String, FileFormat),
    /// The ALPN protocol list offered, in wire format.
    AlpnProtocols(Vec<u8>),
    /// The ALPN selection callback, which answers with `choose_alpn`.
    AlpnSelectHttp11,
}

/// A step in building an acceptor, as plain values: the preset the builder
/// starts from, or one setting.
pub enum AcceptorStep {
    /// Mozilla's intermediate settings (version 5), on the version-flexible
    /// TLS method.
    MozillaIntermediateV5,
    MinProtoVersion(TlsVersion),
    ClearOption(LegacyVersionOption),
    CipherList(Seq<char>),
    CertificateFile(Seq<char>, FileFormat),
    PrivateKeyFile(Seq<char>, FileFormat),
    AlpnProtocols(Seq<u8>),
    AlpnSelectHttp11,
}

impl View for AcceptorSetting {
    type V = AcceptorStep;

    open spec fn view(&self) -> AcceptorStep {
        match self {
            AcceptorSetting::MinProtoVersion(v) => AcceptorStep::MinProtoVersion(*v),
            AcceptorSetting::ClearOption(o) => AcceptorStep::ClearOption(*o),
            AcceptorSetting::CipherList(c) => AcceptorStep::CipherList(c@),
            AcceptorSetting::CertificateFile(p, f) => AcceptorStep::CertificateFile(p@, *f),
            AcceptorSetting::PrivateKeyFile(p, f) => AcceptorStep::PrivateKeyFile(p@, *f),
            AcceptorSetting::AlpnProtocols(b) => AcceptorStep::AlpnProtocols(b@),
            AcceptorSetting::AlpnSelectHttp11 => AcceptorStep::AlpnSelectHttp11,
        }
    }
}

/// The ALPN protocol list offered: `http/1.1` alone, in wire format.
pub open spec fn offered_alpn() -> Seq<u8> {
    seq![8u8, 104u8, 116u8, 116u8, 112u8, 47u8, 49u8, 46u8, 49u8]
}

/// The settings, in order, that make an acceptor speak HTTP/1.1 only and keep
/// TLS 1.0 and 1.1 reachable, with the certificate `cert` and the key `key`:
/// minimum version TLS 1.0; the options that switch off TLS 1.0 and 1.1
/// cleared (the intermediate preset sets them independently of the minimum
/// version); the cipher list widened to "DEFAULT:@SECLEVEL=0", so that a
/// client limited to TLS 1.0 finds a suite it can use; the PEM certificate
/// and key; `http/1.1` as the only ALPN protocol, chosen by `choose_alpn`.
pub open spec fn configured_settings(cert: Seq<char>, key: Seq<char>) -> Seq<AcceptorStep> {
    seq![
        AcceptorStep::MinProtoVersion(TlsVersion::Tls1),
        AcceptorStep::ClearOption(LegacyVersionOption::NoTlsV1),
        AcceptorStep::ClearOption(LegacyVersionOption::NoTlsV1_1),
        AcceptorStep::CipherList("DEFAULT:@SECLEVEL=0"@),
        AcceptorStep::CertificateFile(cert, FileFormat::Pem),
        AcceptorStep::PrivateKeyFile(key, FileFormat::Pem),
        AcceptorStep::AlpnProtocols(offered_alpn()),
        AcceptorStep::AlpnSelectHttp11,
    ]
}

/// Everything an acceptor for `config` is built from: the intermediate
/// preset, then `configured_settings`.
pub open spec fn acceptor_steps(config: TlsConfig) -> Seq<AcceptorStep> {
    seq![AcceptorStep::MozillaIntermediateV5] + configured_settings(
        config.cert_path@,
        config.key_path@,
    )
}

/// Whether a setting can be handed to OpenSSL without a panic: no NUL in a C
/// string, and an ALPN list of at most `u32::MAX` bytes.
pub open spec fn setting_usable(step: AcceptorStep) -> bool {
    match step {
        AcceptorStep::CipherList(c) => no_nul(c),
        AcceptorStep::CertificateFile(p, _) => no_nul(p),
        AcceptorStep::PrivateKeyFile(p, _) => no_nul(p),
        AcceptorStep::AlpnProtocols(b) => b.len() <= u32::MAX,
        _ => true,
    }
}

/// The error that a failing step gives: a certificate file names its path,
/// a private-key file names its path, anything else is a context error.
pub open spec fn error_for_step(step: AcceptorStep, e: TlsSetupError) -> bool {
    match step {
        AcceptorStep::CertificateFile(p, _) => e matches TlsSetupError::Certificate { path, .. }
            && path@ == p,
        AcceptorStep::PrivateKeyFile(p, _) => e matches TlsSetupError::PrivateKey { path, .. }
            && path@ == p,
        _ => e is Context,
    }
}

/// The settings for an acceptor with the certificate and key of `config`.
pub fn acceptor_settings(config: &TlsConfig) -> (settings: Vec<AcceptorSetting>)
    ensures
        settings@.map_values(|s: AcceptorSetting| s@) == configured_settings(
            config.cert_path@,
            config.key_path@,
        ),
{
    let mut settings: Vec<AcceptorSetting> = Vec::new();
    settings.push(AcceptorSetting::MinProtoVersion(TlsVersion::Tls1));
    settings.push(AcceptorSetting::ClearOption(LegacyVersionOption::NoTlsV1));
    settings.push(AcceptorSetting::ClearOption(LegacyVersionOption::NoTlsV1_1));
    settings.push(AcceptorSetting::CipherList("DEFAULT:@SECLEVEL=0".to_owned()));
    settings.push(AcceptorSetting::CertificateFile(config.cert_path.clone(), FileFormat::Pem));
    settings.push(AcceptorSetting::PrivateKeyFile(config.key_path.clone(), FileFormat::Pem));
    let mut alpn: Vec<u8> = Vec::new();
    proof {
        assert(ALPN_WIRE_FORMAT@ =~= offered_alpn());
    }
    for k in 0..9
        invariant
            ALPN_WIRE_FORMAT@ == offered_alpn(),
            alpn@ == offered_alpn().take(k as int),
    {
        proof {
            assert(offered_alpn().take(k + 1) =~= offered_alpn().take(k as int).push(offered_alpn()[k as int]));
        }
        alpn.push(ALPN_WIRE_FORMAT[k]);
    }
    proof {
        assert(offered_alpn().take(9) =~= offered_alpn());
    }
    settings.push(AcceptorSetting::AlpnProtocols(alpn));
    settings.push(AcceptorSetting::AlpnSelectHttp11);
    assert(settings@.map_values(|s: AcceptorSetting| s@) =~= configured_settings(
        config.cert_path@,
        config.key_path@,
    ));
    settings
}

/// The error to report when handing `setting` to OpenSSL failed with `source`.
pub fn setup_error(setting: &AcceptorSetting, source: ErrorStack) -> (e: TlsSetupError)
    ensures
        error_for_step(setting@, e),
{
    match setting {
        AcceptorSetting::CertificateFile(path, _) => TlsSetupError::Certificate { path: path.clone(), source },
        AcceptorSetting::PrivateKeyFile(path, _) => TlsSetupError::PrivateKey { path: path.clone(), source },
        _ => TlsSetupError::Context(source),
    }
}

/// An acceptor builder, with the steps it was built from so far.
struct AcceptorBuilder {
    builder: SslAcceptorBuilder,
    /// The receipts of the settings OpenSSL has taken, in order.
    applied: Ghost<Seq<Applied>>,
}

impl AcceptorBuilder {
    spec fn steps(&self) -> Seq<AcceptorStep> {
        seq![AcceptorStep::MozillaIntermediateV5] + self.applied@.map_values(|a: Applied| a.step())
    }

    /// Adds the receipt of a setting OpenSSL has just taken.
    fn record(&mut self, receipt: Applied)
        ensures
            final(self).steps() == old(self).steps().push(receipt.step()),
    {
        let applied: Ghost<Seq<Applied>> = Ghost(self.applied@.push(receipt));
        self.applied = applied;
        assert(self.steps() =~= old(self).steps().push(receipt.step()));
    }

    /// A builder with Mozilla's intermediate settings.
    fn intermediate() -> (res: Result<Self, ErrorStack>)
        ensures
            res matches Ok(b) ==> b.steps() == seq![AcceptorStep::MozillaIntermediateV5],
    {
        let applied: Ghost<Seq<Applied>> = Ghost(Seq::empty());
        match mozilla_intermediate_v5(tls_method()) {
            Ok(builder) => {
                let b = AcceptorBuilder { builder, applied };
                assert(b.steps() =~= seq![AcceptorStep::MozillaIntermediateV5]);
                Ok(b)
            },
            Err(e) => Err(e),
        }
    }

    /// Hands `setting` to OpenSSL; when that succeeds, the receipt OpenSSL's
    /// wrapper gives for it joins the steps.
    fn apply(&mut self, setting: &AcceptorSetting) -> (res: Result<(), ErrorStack>)
        requires
            setting_usable(setting@),
        ensures
            res is Ok ==> final(self).steps() == old(self).steps().push(setting@),
    {
        let taken = match setting {
            AcceptorSetting::MinProtoVersion(v) => set_min_proto_version(&mut self.builder, *v),
            AcceptorSetting::ClearOption(o) => Ok(clear_option(&mut self.builder, *o)),
            AcceptorSetting::CipherList(c) => set_cipher_list(&mut self.builder, c.as_str()),
            AcceptorSetting::CertificateFile(p, f) => set_certificate_file(&mut self.builder, p.as_str(), *f),
            AcceptorSetting::PrivateKeyFile(p, f) => set_private_key_file(&mut self.builder, p.as_str(), *f),
            AcceptorSetting::AlpnProtocols(b) => set_alpn_protos(&mut self.builder, b.as_slice()),
            AcceptorSetting::AlpnSelectHttp11 => Ok(set_alpn_select_callback(&mut self.builder)),
        };
        match taken {
            Ok(receipt) => {
                self.record(receipt);
                Ok(())
            },
            Err(e) => Err(e),
        }
    }

    /// The acceptor, built from the steps so far.
    fn build(self) -> (acceptor: TlsAcceptor)
        ensures
            acceptor.steps() == self.steps(),
    {
        let steps: Ghost<Seq<AcceptorStep>> = Ghost(self.steps());
        TlsAcceptor { acceptor: build(self.builder), steps }
    }
}

/// A TLS acceptor, with the steps it was built from.
pub struct TlsAcceptor {
    acceptor: SslAcceptor,
    steps: Ghost<Seq<AcceptorStep>>,
}

impl TlsAcceptor {
    /// The preset and the settings that were handed to OpenSSL, in order, to
    /// build this acceptor.
    pub closed spec fn steps(&self) -> Seq<AcceptorStep> {
        self.steps@
    }

    /// The OpenSSL acceptor itself.
    pub fn into_inner(self) -> SslAcceptor {
        self.acceptor
    }
}

/// Whether `e` is the error of one of the steps an acceptor for `config` is
/// built from, as `error_for_step` gives it.
pub open spec fn setup_failure(config: TlsConfig, e: TlsSetupError) -> bool {
    exists|i: int|
        0 <= i < acceptor_steps(config).len() && #[trigger] error_for_step(
            acceptor_steps(config)[i],
            e,
        )
}

proof fn lemma_settings_usable(cert: Seq<char>, key: Seq<char>)
    requires
        no_nul(cert),
        no_nul(key),
    ensures
        forall|i: int|
            0 <= i < configured_settings(cert, key).len() ==> setting_usable(
                #[trigger] configured_settings(cert, key)[i],
            ),
{
    reveal_strlit("DEFAULT:@SECLEVEL=0");
    assert(no_nul("DEFAULT:@SECLEVEL=0"@));
}

/// Builds an acceptor that only speaks HTTP/1.1 over ALPN and keeps TLS 1.0
/// and 1.1 reachable for legacy clients: it starts from Mozilla's
/// intermediate preset and hands OpenSSL `configured_settings` in order; the
/// acceptor it returns was built from exactly those steps. It stops at the
/// first step that fails, with that step's error (`setup_error`): a
/// certificate or key file names its path, anything else is a context error.
pub fn build_acceptor(config: &TlsConfig) -> (res: Result<TlsAcceptor, TlsSetupError>)
    requires
        no_nul(config.cert_path@),
        no_nul(config.key_path@),
    ensures
        match res {
            Ok(acceptor) => acceptor.steps() == acceptor_steps(*config),
            Err(e) => setup_failure(*config, e),
        },
{
    let settings = acceptor_settings(config);
    let ghost wanted = configured_settings(config.cert_path@, config.key_path@);
    proof {
        lemma_settings_usable(config.cert_path@, config.key_path@);
    }
    let mut builder = match AcceptorBuilder::intermediate() {
        Ok(b) => b,
        Err(e) => {
            let e = TlsSetupError::Context(e);
            assert(error_for_step(acceptor_steps(*config)[0], e));
            return Err(e);
        },
    };
    let n = settings.len();
    let mut i: usize = 0;
    while i < n
        invariant
            n == settings.len(),
            i <= n,
            settings@.map_values(|s: AcceptorSetting| s@) == wanted,
            wanted == configured_settings(config.cert_path@, config.key_path@),
            forall|j: int| 0 <= j < wanted.len() ==> setting_usable(#[trigger] wanted[j]),
            builder.steps() == seq![AcceptorStep::MozillaIntermediateV5] + wanted.take(i as int),
        decreases n - i,
    {
        assert(settings@[i as int]@ == wanted[i as int]);
        match builder.apply(&settings[i]) {
            Ok(()) => {},
            Err(source) => {
                let e = setup_error(&settings[i], source);
                proof {
                    assert(acceptor_steps(*config)[i + 1] == wanted[i as int]);
                    assert(error_for_step(acceptor_steps(*config)[i + 1], e));
                }
                return Err(e);
            },
        }
        proof {
            assert(wanted.take(i + 1) =~= wanted.take(i as int).push(wanted[i as int]));
        }
        i = i + 1;
    }
    proof {
        assert(wanted.take(n as int) =~= wanted);
    }
    Ok(builder.build())
}


/// An acceptor built for any configuration keeps TLS 1.0 and 1.1 reachable
/// and speaks HTTP/1.1 only: its steps set the minimum version to TLS 1.0,
/// clear both legacy options that switch off TLS 1.0 and TLS 1.1, and every
/// ALPN list among them offers `http/1.1` and nothing else; the certificate and
/// key it loads are the configuration's own.
pub proof fn lemma_acceptor_keeps_legacy_and_http11(config: TlsConfig)
    ensures
        acceptor_steps(config).contains(AcceptorStep::MinProtoVersion(TlsVersion::Tls1)),
        acceptor_steps(config).contains(AcceptorStep::ClearOption(LegacyVersionOption::NoTlsV1)),
        acceptor_steps(config).contains(AcceptorStep::ClearOption(LegacyVersionOption::NoTlsV1_1)),
        acceptor_steps(config).contains(AcceptorStep::AlpnSelectHttp11),
        acceptor_steps(config).contains(AcceptorStep::CertificateFile(config.cert_path@, FileFormat::Pem)),
        acceptor_steps(config).contains(AcceptorStep::PrivateKeyFile(config.key_path@, FileFormat::Pem)),
        forall|i: int|
            0 <= i < acceptor_steps(config).len() ==> (#[trigger] acceptor_steps(config)[i] matches AcceptorStep::AlpnProtocols(p)
                ==> alpn_protocols(p) == Some(seq![http11()])),
{
    let steps = acceptor_steps(config);
    assert(steps[1] == AcceptorStep::MinProtoVersion(TlsVersion::Tls1));
    assert(steps[2] == AcceptorStep::ClearOption(LegacyVersionOption::NoTlsV1));
    assert(steps[3] == AcceptorStep::ClearOption(LegacyVersionOption::NoTlsV1_1));
    assert(steps[5] == AcceptorStep::CertificateFile(config.cert_path@, FileFormat::Pem));
    assert(steps[6] == AcceptorStep::PrivateKeyFile(config.key_path@, FileFormat::Pem));
    assert(steps[8] == AcceptorStep::AlpnSelectHttp11);
    lemma_offered_protocols();
    assert(ALPN_WIRE_FORMAT@ =~= offered_alpn());
}

} // verus!
