use vstd::prelude::*;

use openssl::error::ErrorStack;
use openssl::ssl::{SslAcceptor, SslAcceptorBuilder, SslMethod};

use crate::tls::{
    choose_alpn, no_nul, AcceptorSetting, AcceptorStep, FileFormat, LegacyVersionOption, TlsVersion,
};

verus! {

/// The receipt for a setting that OpenSSL has taken: only the calls below
/// make one, each for the setting it handed over.
pub struct Applied {
    setting: AcceptorSetting,
}

impl Applied {
    /// The setting this receipt is for.
    pub closed spec fn step(&self) -> AcceptorStep {
        self.setting@
    }
}

/// Calls `openssl::ssl::SslMethod::tls`, the version-flexible TLS method.
#[verifier::external_body]
pub(crate) fn tls_method() -> SslMethod {
    SslMethod::tls()
}

/// Calls `openssl::ssl::SslAcceptor::mozilla_intermediate_v5`, which creates
/// an acceptor builder preconfigured with Mozilla's intermediate settings.
/// Whether it succeeds depends on the OpenSSL library: nothing is claimed.
#[verifier::external_body]
pub(crate) fn mozilla_intermediate_v5(method: SslMethod) -> Result<SslAcceptorBuilder, ErrorStack> {
    SslAcceptor::mozilla_intermediate_v5(method)
}

/// Calls `SslContextBuilder::set_min_proto_version` with the version that
/// `version` names. Whether OpenSSL takes it is not claimed; when it does, the
/// receipt records that version.
#[verifier::external_body]
pub(crate) fn set_min_proto_version(builder: &mut SslAcceptorBuilder, version: TlsVersion) -> (res: Result<Applied, ErrorStack>)
    ensures
        res matches Ok(a) ==> a.step() == AcceptorStep::MinProtoVersion(version),
{
    let setting = AcceptorSetting::MinProtoVersion(version);
    let version = match version {
        TlsVersion::Tls1 => openssl::ssl::SslVersion::TLS1,
        TlsVersion::Tls1_1 => openssl::ssl::SslVersion::TLS1_1,
        TlsVersion::Tls1_2 => openssl::ssl::SslVersion::TLS1_2,
        TlsVersion::Tls1_3 => openssl::ssl::SslVersion::TLS1_3,
    };
    match builder.set_min_proto_version(Some(version)) {
        Ok(()) => Ok(Applied { setting }),
        Err(e) => Err(e),
    }
}

/// Calls `SslContextBuilder::clear_options` with the option that `option`
/// names, which clears exactly that option; the set of options it returns is
/// dropped. The receipt records that option.
#[verifier::external_body]
pub(crate) fn clear_option(builder: &mut SslAcceptorBuilder, option: LegacyVersionOption) -> (a: Applied)
    ensures
        a.step() == AcceptorStep::ClearOption(option),
{
    let setting = AcceptorSetting::ClearOption(option);
    let option = match option {
        LegacyVersionOption::NoTlsV1 => openssl::ssl::SslOptions::NO_TLSV1,
        LegacyVersionOption::NoTlsV1_1 => openssl::ssl::SslOptions::NO_TLSV1_1,
    };
    builder.clear_options(option);
    Applied { setting }
}

/// Calls `SslContextBuilder::set_cipher_list`. It panics on a NUL character,
/// which `requires` rules out. Whether OpenSSL takes the list is not
/// claimed; when it does, the receipt records that list.
#[verifier::external_body]
pub(crate) fn set_cipher_list(builder: &mut SslAcceptorBuilder, cipher_list: &str) -> (res: Result<Applied, ErrorStack>)
    requires
        no_nul(cipher_list@),
    ensures
        res matches Ok(a) ==> a.step() == AcceptorStep::CipherList(cipher_list@),
{
    match builder.set_cipher_list(cipher_list) {
        Ok(()) => Ok(Applied { setting: AcceptorSetting::CipherList(cipher_list.to_string()) }),
        Err(e) => Err(e),
    }
}

/// Calls `SslContextBuilder::set_certificate_file` with the file type that
/// `format` names. It panics on a NUL character in the path, which
/// `requires` rules out. The outcome depends on the file system: nothing is
/// claimed of it; when it succeeds, the receipt records that path and format.
#[verifier::external_body]
pub(crate) fn set_certificate_file(builder: &mut SslAcceptorBuilder, path: &str, format: FileFormat) -> (res: Result<Applied, ErrorStack>)
    requires
        no_nul(path@),
    ensures
        res matches Ok(a) ==> a.step() == AcceptorStep::CertificateFile(path@, format),
{
    let setting = AcceptorSetting::CertificateFile(path.to_string(), format);
    let format = match format {
        FileFormat::Pem => openssl::ssl::SslFiletype::PEM,
        FileFormat::Asn1 => openssl::ssl::SslFiletype::ASN1,
    };
    match builder.set_certificate_file(path, format) {
        Ok(()) => Ok(Applied { setting }),
        Err(e) => Err(e),
    }
}

/// Calls `SslContextBuilder::set_private_key_file` with the file type that
/// `format` names. It panics on a NUL character in the path, which
/// `requires` rules out. The outcome depends on the file system: nothing is
/// claimed of it; when it succeeds, the receipt records that path and format.
#[verifier::external_body]
pub(crate) fn set_private_key_file(builder: &mut SslAcceptorBuilder, path: &str, format: FileFormat) -> (res: Result<Applied, ErrorStack>)
    requires
        no_nul(path@),
    ensures
        res matches Ok(a) ==> a.step() == AcceptorStep::PrivateKeyFile(path@, format),
{
    let setting = AcceptorSetting::PrivateKeyFile(path.to_string(), format);
    let format = match format {
        FileFormat::Pem => openssl::ssl::SslFiletype::PEM,
        FileFormat::Asn1 => openssl::ssl::SslFiletype::ASN1,
    };
    match builder.set_private_key_file(path, format) {
        Ok(()) => Ok(Applied { setting }),
        Err(e) => Err(e),
    }
}

/// Calls `SslContextBuilder::set_alpn_protos`. It asserts that the list is
/// at most `u32::MAX` bytes long, which `requires` rules out. Nothing is
/// claimed of the outcome; when it succeeds, the receipt records that list.
#[verifier::external_body]
pub(crate) fn set_alpn_protos(builder: &mut SslAcceptorBuilder, protocols: &[u8]) -> (res: Result<Applied, ErrorStack>)
    requires
        protocols@.len() <= u32::MAX,
    ensures
        res matches Ok(a) ==> a.step() == AcceptorStep::AlpnProtocols(protocols@),
{
    match builder.set_alpn_protos(protocols) {
        Ok(()) => Ok(Applied { setting: AcceptorSetting::AlpnProtocols(protocols.to_vec()) }),
        Err(e) => Err(e),
    }
}

/// Calls `SslContextBuilder::set_alpn_select_callback` with a callback that
/// answers with `choose_alpn` and refuses the protocol negotiation (no
/// acknowledgement) when that gives nothing. The client's list comes from the
/// ALPN extension, whose length is a 16-bit field, so it is far within the
/// `u32::MAX` bytes that `choose_alpn` requires. The receipt records the
/// callback.
#[verifier::external_body]
pub(crate) fn set_alpn_select_callback(builder: &mut SslAcceptorBuilder) -> (a: Applied)
    ensures
        a.step() == AcceptorStep::AlpnSelectHttp11,
{
    builder.set_alpn_select_callback(
        |_ssl, client| choose_alpn(client).ok_or(openssl::ssl::AlpnError::NOACK),
    );
    Applied { setting: AcceptorSetting::AlpnSelectHttp11 }
}

/// Calls `SslAcceptorBuilder::build`, which turns the builder into an acceptor.
#[verifier::external_body]
pub(crate) fn build(builder: SslAcceptorBuilder) -> SslAcceptor {
    builder.build()
}

} // verus!
