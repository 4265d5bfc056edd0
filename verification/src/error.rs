//! The ways in which start-up and connections fail.
//!
//! Every failure but a connection's is met while the server starts; none of
//! them mends itself, so a caller reports it and gives up. A connection's
//! failure ends that connection only.

use vstd::prelude::*;
use vstd::std_specs::convert::FromSpecImpl;
use vstd::string::to_string_from_display_ensures;
use vstd::string::StringExecFns;

verus! {

/// The error type of the certificate generator, `rcgen::RcgenError`. Nothing
/// is known of a value of it but that the generator gave it.
#[verifier::external_type_specification]
#[verifier::external_body]
pub struct ExRcgenError(rcgen::RcgenError);

/// The error type of std's I/O, `std::io::Error`, which the PEM reader
/// returns. Nothing is known of a value of it.
#[verifier::external_type_specification]
#[verifier::external_body]
pub struct ExIoError(std::io::Error);

/// The error type of the TLS library, `rustls::Error`. Nothing is known of a
/// value of it.
#[verifier::external_type_specification]
#[verifier::external_body]
pub struct ExTlsError(rustls::Error);

/// Why no certificate was generated.
#[derive(Debug)]
pub enum GenerationError {
    /// The validity window is empty or reversed, or one of its ends cannot be
    /// written with a four-digit year.
    InvalidValidity,
    /// A server certificate was asked for without any subject alternative
    /// name.
    MissingSubjectAltName,
    /// The text is no IP literal, or no DNS name that a certificate can
    /// hold.
    InvalidSan(String),
    /// The generator failed: it had no key, or could not sign.
    Generator(rcgen::RcgenError),
}

/// Why certificate and key were not accepted for a listener.
#[derive(Debug)]
pub enum TlsConfigError {
    /// The PEM text holds no certificate.
    NoCertificate,
    /// The PEM text holds no PKCS#8 private key.
    NoPrivateKey,
    /// The TLS library refused the private key.
    Rejected(rustls::Error),
}

/// The part of a connection's life in which it failed.
#[derive(Clone, Copy, Debug, PartialEq, Eq, Structural)]
pub enum ConnectionStage {
    /// The TLS handshake.
    Handshake,
    /// The exchange of requests and responses after it.
    Serving,
}

/// Every failure that the library reports.
#[derive(Debug)]
pub enum CertError {
    /// No certificate could be generated.
    CertificateGeneration(GenerationError),
    /// Reading PEM text or writing a file failed.
    Io(std::io::Error),
    /// Certificate and key do not make a TLS configuration.
    TlsConfig(TlsConfigError),
    /// The listening address could not be bound; the text is the cause.
    Bind(String),
    /// One connection failed at the given stage; the text is the cause.
    Connection(ConnectionStage, String),
}

impl From<rcgen::RcgenError> for CertError {
    fn from(error: rcgen::RcgenError) -> (r: CertError) {
        CertError::CertificateGeneration(GenerationError::Generator(error))
    }
}

impl FromSpecImpl<rcgen::RcgenError> for CertError {
    open spec fn obeys_from_spec() -> bool {
        true
    }

    open spec fn from_spec(error: rcgen::RcgenError) -> CertError {
        CertError::CertificateGeneration(GenerationError::Generator(error))
    }
}

impl From<std::io::Error> for CertError {
    fn from(error: std::io::Error) -> (r: CertError) {
        CertError::Io(error)
    }
}

impl FromSpecImpl<std::io::Error> for CertError {
    open spec fn obeys_from_spec() -> bool {
        true
    }

    open spec fn from_spec(error: std::io::Error) -> CertError {
        CertError::Io(error)
    }
}

impl GenerationError {
    /// What the failure is, in words, where the library knows it; `None`
    /// where the words are the generator's own.
    pub open spec fn detail(&self) -> Option<Seq<char>> {
        match self {
            GenerationError::InvalidValidity => Some(
                "the validity window is empty or cannot be written"@,
            ),
            GenerationError::MissingSubjectAltName => Some(
                "a server certificate needs a subject alternative name"@,
            ),
            GenerationError::InvalidSan(text) => Some(
                "invalid subject alternative name: "@ + text@,
            ),
            GenerationError::Generator(_) => None,
        }
    }
}

impl TlsConfigError {
    /// What the failure is, in words, where the library knows it; `None`
    /// where the words are the TLS library's own.
    pub open spec fn detail(&self) -> Option<Seq<char>> {
        match self {
            TlsConfigError::NoCertificate => Some("the PEM text holds no certificate"@),
            TlsConfigError::NoPrivateKey => Some("the PEM text holds no PKCS#8 private key"@),
            TlsConfigError::Rejected(_) => None,
        }
    }
}

impl CertError {
    /// Whether the failure ends start-up. Only a connection's failure does
    /// not: it is reported and the listener goes on.
    pub open spec fn is_fatal(&self) -> bool {
        !(self is Connection)
    }

    /// Whether the failure ends start-up.
    pub fn fatal(&self) -> (r: bool)
        ensures
            r == self.is_fatal(),
    {
        match self {
            CertError::Connection(_, _) => false,
            _ => true,
        }
    }

    /// The words that open the report of a failure and tell its class.
    pub open spec fn heading(&self) -> Seq<char> {
        match self {
            CertError::CertificateGeneration(_) => "Certificate generation error: "@,
            CertError::Io(_) => "IO error: "@,
            CertError::TlsConfig(_) => "TLS configuration error: "@,
            CertError::Bind(_) => "Bind error: "@,
            CertError::Connection(ConnectionStage::Handshake, _) => "TLS Error: "@,
            CertError::Connection(ConnectionStage::Serving, _) => "Error serving connection: "@,
        }
    }

    /// What follows the heading, where the library knows it; `None` where
    /// the words are those of an error from outside.
    pub open spec fn detail(&self) -> Option<Seq<char>> {
        match self {
            CertError::CertificateGeneration(cause) => cause.detail(),
            CertError::Io(_) => None,
            CertError::TlsConfig(cause) => cause.detail(),
            CertError::Bind(cause) => Some(cause@),
            CertError::Connection(_, cause) => Some(cause@),
        }
    }

    /// Whether `words` is what the error from outside that caused the
    /// failure says of itself when it is displayed.
    pub open spec fn is_said_by_cause(&self, words: String) -> bool {
        match self {
            CertError::CertificateGeneration(GenerationError::Generator(outside)) => {
                to_string_from_display_ensures::<rcgen::RcgenError>(outside, words)
            },
            CertError::Io(outside) => to_string_from_display_ensures::<std::io::Error>(
                outside,
                words,
            ),
            CertError::TlsConfig(TlsConfigError::Rejected(outside)) => {
                to_string_from_display_ensures::<rustls::Error>(outside, words)
            },
            _ => false,
        }
    }

    /// The report of the failure: its heading, then its cause, and nothing
    /// more. Where the cause is an error from outside, the cause is given in
    /// the words in which that error displays itself.
    pub fn message(&self) -> (text: String)
        ensures
            match self.detail() {
                Some(detail) => text@ == self.heading() + detail,
                None => exists|words: String| #[trigger]
                    self.is_said_by_cause(words) && text@ == self.heading() + words@,
            },
    {
        match self {
            CertError::CertificateGeneration(cause) => {
                let heading = String::from_str("Certificate generation error: ");
                match cause {
                    GenerationError::InvalidValidity => heading.concat(
                        "the validity window is empty or cannot be written",
                    ),
                    GenerationError::MissingSubjectAltName => heading.concat(
                        "a server certificate needs a subject alternative name",
                    ),
                    GenerationError::InvalidSan(refused) => {
                        let text = heading.concat("invalid subject alternative name: ").concat(
                            refused.as_str(),
                        );
                        assert(text@ =~= self.heading() + self.detail().unwrap());
                        text
                    },
                    GenerationError::Generator(outside) => {
                        let words = outside.to_string();
                        assert(self.is_said_by_cause(words));
                        heading.concat(words.as_str())
                    },
                }
            },
            CertError::Io(outside) => {
                let words = outside.to_string();
                assert(self.is_said_by_cause(words));
                String::from_str("IO error: ").concat(words.as_str())
            },
            CertError::TlsConfig(cause) => {
                let heading = String::from_str("TLS configuration error: ");
                match cause {
                    TlsConfigError::NoCertificate => heading.concat(
                        "the PEM text holds no certificate",
                    ),
                    TlsConfigError::NoPrivateKey => heading.concat(
                        "the PEM text holds no PKCS#8 private key",
                    ),
                    TlsConfigError::Rejected(outside) => {
                        let words = outside.to_string();
                        assert(self.is_said_by_cause(words));
                        heading.concat(words.as_str())
                    },
                }
            },
            CertError::Bind(cause) => String::from_str("Bind error: ").concat(cause.as_str()),
            CertError::Connection(stage, cause) => match stage {
                ConnectionStage::Handshake => String::from_str("TLS Error: ").concat(
                    cause.as_str(),
                ),
                ConnectionStage::Serving => String::from_str("Error serving connection: ").concat(
                    cause.as_str(),
                ),
            },
        }
    }
}

} // verus!
