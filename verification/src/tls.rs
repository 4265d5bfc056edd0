//! From PEM text to the TLS configuration of a listener.
//!
//! The certificate chain and the private key arrive as PEM text. Both are
//! read back into DER, the first certificate and the first PKCS#8 key are
//! taken, and the TLS library makes of them a configuration that asks no
//! certificate of the client. Text in any other encoding ends here, with an
//! error, before a listener is bound.

use crate::error::{CertError, TlsConfigError};
use crate::issuer::IssuedCertificate;
use vstd::prelude::*;
use vstd::string::StringSliceAdditionalSpecFns;
use vstd::utf8::encode_utf8;

verus! {

/// The TLS library's `ServerConfig`. Nothing is known of a value of it but
/// what the function that made it says.
#[verifier::external_type_specification]
#[verifier::external_body]
pub struct ExServerConfig(rustls::ServerConfig);

/// The DER contents of the `CERTIFICATE` sections of `pem`, in their order,
/// as `rustls_pemfile::certs` finds them; `None` where it reports the text as
/// invalid. A text without such a section gives the empty list.
pub uninterp spec fn pem_certificates(pem: Seq<u8>) -> Option<Seq<Seq<u8>>>;

/// The DER contents of the `PRIVATE KEY` sections of `pem`, in their order,
/// as `rustls_pemfile::pkcs8_private_keys` finds them; `None` where it
/// reports the text as invalid.
pub uninterp spec fn pem_pkcs8_keys(pem: Seq<u8>) -> Option<Seq<Seq<u8>>>;

/// Whether the TLS library can read `der` as a private key of a kind that it
/// signs with. `with_single_cert` succeeds with no other key; with such a
/// key it may still fail, where the system gives it no random bytes.
pub uninterp spec fn is_signing_key(der: Seq<u8>) -> bool;

/// `rustls_pemfile::certs` on the bytes of a text held in memory. What it
/// returns depends on the bytes alone.
#[verifier::external_body]
pub(crate) fn read_certificates(pem: &[u8]) -> (r: Result<Vec<Vec<u8>>, std::io::Error>)
    ensures
        r matches Ok(sections) ==> pem_certificates(pem@) == Some(sections.deep_view()),
        r is Err ==> pem_certificates(pem@) is None,
{
    let mut reader = pem;
    rustls_pemfile::certs(&mut reader)
}

/// `rustls_pemfile::pkcs8_private_keys` on the bytes of a text held in
/// memory. What it returns depends on the bytes alone.
#[verifier::external_body]
pub(crate) fn read_pkcs8_keys(pem: &[u8]) -> (r: Result<Vec<Vec<u8>>, std::io::Error>)
    ensures
        r matches Ok(sections) ==> pem_pkcs8_keys(pem@) == Some(sections.deep_view()),
        r is Err ==> pem_pkcs8_keys(pem@) is None,
{
    let mut reader = pem;
    rustls_pemfile::pkcs8_private_keys(&mut reader)
}

/// `ServerConfig::builder`, with the library's safe defaults and without
/// client authentication, then `with_single_cert`. It does not look at the
/// chain. It fails where it cannot read the key, and it draws random bytes
/// while it reads an ECDSA key, so it may fail on a key that it can read.
#[verifier::external_body]
pub(crate) fn single_certificate_config(chain: &Vec<Vec<u8>>, key: Vec<u8>) -> (r: Result<
    rustls::ServerConfig,
    rustls::Error,
>)
    ensures
        r is Ok ==> is_signing_key(key@),
{
    let chain = chain.iter().cloned().map(rustls::Certificate).collect();
    rustls::ServerConfig::builder().with_safe_defaults().with_no_client_auth().with_single_cert(
        chain,
        rustls::PrivateKey(key),
    )
}

/// The configuration of a listener: the certificate chain that it presents,
/// and what the TLS library made of chain and key. It is never changed once
/// made, so connections may share it.
pub struct ServerTlsConfig {
    chain: Vec<Vec<u8>>,
    inner: rustls::ServerConfig,
}

impl ServerTlsConfig {
    /// The certificates that the listener presents, in DER, the server's own
    /// first.
    pub closed spec fn chain(&self) -> Seq<Seq<u8>> {
        self.chain.deep_view()
    }

    /// The certificates that the listener presents.
    pub fn certificate_chain(&self) -> (chain: &Vec<Vec<u8>>)
        ensures
            chain.deep_view() == self.chain(),
    {
        &self.chain
    }

    /// What the TLS library made of chain and key.
    pub closed spec fn made(&self) -> rustls::ServerConfig {
        self.inner
    }

    /// The TLS library's configuration, to hand to an acceptor.
    pub fn into_inner(self) -> (config: rustls::ServerConfig)
        ensures
            config == self.made(),
    {
        self.inner
    }
}

/// The section that a listener uses of those read from a PEM text: the
/// first. `missing` is the failure where there is none.
pub fn first_section(parsed: Result<Vec<Vec<u8>>, std::io::Error>, missing: TlsConfigError) -> (r:
    Result<Vec<u8>, CertError>)
    ensures
        match parsed {
            Ok(sections) => if sections.len() > 0 {
                r matches Ok(der) && der@ == sections[0]@
            } else {
                r matches Err(CertError::TlsConfig(cause)) && cause == missing
            },
            Err(cause) => r matches Err(CertError::Io(reported)) && reported == cause,
        },
{
    match parsed {
        Ok(mut sections) => {
            if sections.len() > 0 {
                Ok(sections.remove(0))
            } else {
                Err(CertError::TlsConfig(missing))
            }
        },
        Err(cause) => Err(CertError::from(cause)),
    }
}

/// The certificate that `pem` gives a listener, if it gives one.
pub open spec fn certificate_of(pem: Seq<u8>) -> Option<Seq<u8>> {
    match pem_certificates(pem) {
        Some(sections) => if sections.len() > 0 {
            Some(sections[0])
        } else {
            None
        },
        None => None,
    }
}

/// The private key that `pem` gives a listener, if it gives one.
pub open spec fn private_key_of(pem: Seq<u8>) -> Option<Seq<u8>> {
    match pem_pkcs8_keys(pem) {
        Some(sections) => if sections.len() > 0 {
            Some(sections[0])
        } else {
            None
        },
        None => None,
    }
}

/// Reads the server's certificate from PEM text: the first `CERTIFICATE`
/// section. A text that cannot be read is an I/O error; one without a
/// certificate is no TLS configuration.
pub fn load_certificate(pem: &str) -> (r: Result<Vec<u8>, CertError>)
    ensures
        match pem_certificates(pem.spec_bytes()) {
            Some(sections) => if sections.len() > 0 {
                r matches Ok(der) && der@ == sections[0]
            } else {
                r matches Err(CertError::TlsConfig(TlsConfigError::NoCertificate))
            },
            None => r matches Err(CertError::Io(_)),
        },
{
    let parsed = read_certificates(pem.as_bytes());
    first_section(parsed, TlsConfigError::NoCertificate)
}

/// Reads the server's private key from PEM text: the first `PRIVATE KEY`
/// section, which holds a key in PKCS#8. A text that cannot be read is an
/// I/O error; one without such a section is no TLS configuration.
pub fn load_private_key(pem: &str) -> (r: Result<Vec<u8>, CertError>)
    ensures
        match pem_pkcs8_keys(pem.spec_bytes()) {
            Some(sections) => if sections.len() > 0 {
                r matches Ok(der) && der@ == sections[0]
            } else {
                r matches Err(CertError::TlsConfig(TlsConfigError::NoPrivateKey))
            },
            None => r matches Err(CertError::Io(_)),
        },
{
    let parsed = read_pkcs8_keys(pem.as_bytes());
    first_section(parsed, TlsConfigError::NoPrivateKey)
}

/// What is returned once the TLS library has answered: the configuration
/// with the chain it was made for, or the library's refusal.
pub fn conclude_config(chain: Vec<Vec<u8>>, made: Result<rustls::ServerConfig, rustls::Error>) -> (r:
    Result<ServerTlsConfig, CertError>)
    ensures
        match made {
            Ok(inner) => r matches Ok(config) && config.chain() == chain.deep_view()
                && config.made() == inner,
            Err(cause) => r matches Err(CertError::TlsConfig(TlsConfigError::Rejected(reported)))
                && reported == cause,
        },
{
    match made {
        Ok(inner) => Ok(ServerTlsConfig { chain, inner }),
        Err(cause) => Err(CertError::TlsConfig(TlsConfigError::Rejected(cause))),
    }
}

/// Whether `r` is what making a configuration gives for a certificate and a
/// private key with these bytes as their PEM text.
///
/// The certificate is read first, then the key, then the TLS library is
/// asked; the first failure is the one reported. A configuration is made
/// only where the text holds a certificate and a PKCS#8 key that the library
/// can read, and it presents that certificate alone. With such a key the
/// library may still refuse, and with any other it does.
pub open spec fn is_config_outcome(
    r: Result<ServerTlsConfig, CertError>,
    certificate_pem: Seq<u8>,
    private_key_pem: Seq<u8>,
) -> bool {
    match (certificate_of(certificate_pem), private_key_of(private_key_pem)) {
        (Some(certificate), Some(key)) => match r {
            Ok(config) => is_signing_key(key) && config.chain() == seq![certificate],
            Err(e) => e matches CertError::TlsConfig(TlsConfigError::Rejected(_)),
        },
        (Some(_), None) => if pem_pkcs8_keys(private_key_pem) is Some {
            r matches Err(CertError::TlsConfig(TlsConfigError::NoPrivateKey))
        } else {
            r matches Err(CertError::Io(_))
        },
        (None, _) => if pem_certificates(certificate_pem) is Some {
            r matches Err(CertError::TlsConfig(TlsConfigError::NoCertificate))
        } else {
            r matches Err(CertError::Io(_))
        },
    }
}

/// Makes the TLS configuration of a listener from a certificate and a
/// private key in PEM text. No certificate is asked of clients.
pub fn server_tls_config(certificate_pem: &str, private_key_pem: &str) -> (r: Result<
    ServerTlsConfig,
    CertError,
>)
    ensures
        is_config_outcome(r, certificate_pem.spec_bytes(), private_key_pem.spec_bytes()),
{
    let certificate = match load_certificate(certificate_pem) {
        Ok(der) => der,
        Err(e) => {
            return Err(e);
        },
    };
    let key = match load_private_key(private_key_pem) {
        Ok(der) => der,
        Err(e) => {
            return Err(e);
        },
    };
    let mut chain: Vec<Vec<u8>> = Vec::new();
    let ghost first = certificate@;
    chain.push(certificate);
    assert(chain.deep_view() =~= seq![first]) by {
        assert(chain.deep_view().len() == 1);
        assert(chain.deep_view()[0] == chain[0]@);
    }
    let made = single_certificate_config(&chain, key);
    conclude_config(chain, made)
}

/// Makes the TLS configuration of a listener that presents `issued`.
pub fn tls_config_for(issued: &IssuedCertificate) -> (r: Result<ServerTlsConfig, CertError>)
    ensures
        is_config_outcome(
            r,
            encode_utf8(issued.certificate_text()),
            encode_utf8(issued.private_key_text()),
        ),
{
    server_tls_config(issued.certificate_pem(), issued.private_key_pem())
}

} // verus!
