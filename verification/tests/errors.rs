use tls_bootstrap::error::{CertError, ConnectionStage, GenerationError, TlsConfigError};
use tls_bootstrap::response::{handle_request, response_body, GREETING};

#[test]
fn only_a_connection_failure_is_survived() {
    assert!(CertError::CertificateGeneration(GenerationError::InvalidValidity).fatal());
    assert!(CertError::Io(std::io::Error::new(std::io::ErrorKind::Other, "x")).fatal());
    assert!(CertError::TlsConfig(TlsConfigError::NoCertificate).fatal());
    assert!(CertError::Bind("address in use".to_string()).fatal());
    assert!(!CertError::Connection(ConnectionStage::Handshake, "x".to_string()).fatal());
    assert!(!CertError::Connection(ConnectionStage::Serving, "x".to_string()).fatal());
}

#[test]
fn reports_name_class_and_cause() {
    assert_eq!(
        CertError::CertificateGeneration(GenerationError::InvalidValidity).message(),
        "Certificate generation error: the validity window is empty or cannot be written"
    );
    assert_eq!(
        CertError::CertificateGeneration(GenerationError::MissingSubjectAltName).message(),
        "Certificate generation error: a server certificate needs a subject alternative name"
    );
    assert_eq!(
        CertError::CertificateGeneration(GenerationError::InvalidSan("1.2.3".to_string()))
            .message(),
        "Certificate generation error: invalid subject alternative name: 1.2.3"
    );
    assert_eq!(
        CertError::TlsConfig(TlsConfigError::NoCertificate).message(),
        "TLS configuration error: the PEM text holds no certificate"
    );
    assert_eq!(
        CertError::TlsConfig(TlsConfigError::NoPrivateKey).message(),
        "TLS configuration error: the PEM text holds no PKCS#8 private key"
    );
    assert_eq!(
        CertError::Bind("Address already in use".to_string()).message(),
        "Bind error: Address already in use"
    );
    assert_eq!(
        CertError::Connection(ConnectionStage::Handshake, "bad record".to_string()).message(),
        "TLS Error: bad record"
    );
    assert_eq!(
        CertError::Connection(ConnectionStage::Serving, "reset".to_string()).message(),
        "Error serving connection: reset"
    );
}

#[test]
fn reports_of_outside_errors_carry_their_words() {
    assert_eq!(
        CertError::from(rcgen::RcgenError::KeyGenerationUnavailable).message(),
        format!("Certificate generation error: {}", rcgen::RcgenError::KeyGenerationUnavailable)
    );
    assert_eq!(
        CertError::from(std::io::Error::new(std::io::ErrorKind::InvalidData, "section end missing"))
            .message(),
        "IO error: section end missing"
    );
    assert_eq!(
        CertError::TlsConfig(TlsConfigError::Rejected(rustls::Error::General(
            "invalid private key".to_string()
        )))
        .message(),
        format!("TLS configuration error: {}", rustls::Error::General("invalid private key".to_string()))
    );
}

#[test]
fn report_of_a_full_disk() {
    let e = CertError::Io(std::io::Error::new(std::io::ErrorKind::Other, "disk full"));
    assert_eq!(e.message(), "IO error: disk full");
    let e = CertError::from(std::io::Error::new(std::io::ErrorKind::PermissionDenied, "denied"));
    assert_eq!(e.message(), "IO error: denied");
    let e = CertError::from(rcgen::RcgenError::RingUnspecified);
    assert_eq!(
        e.message(),
        format!("Certificate generation error: {}", rcgen::RcgenError::RingUnspecified)
    );
    assert!(e.message().ends_with(&rcgen::RcgenError::RingUnspecified.to_string()));
    assert!(!e.message().ends_with('\n'));
}

#[test]
fn outside_errors_find_their_class() {
    assert!(matches!(
        CertError::from(rcgen::RcgenError::RingUnspecified),
        CertError::CertificateGeneration(GenerationError::Generator(
            rcgen::RcgenError::RingUnspecified
        ))
    ));
    match CertError::from(std::io::Error::new(std::io::ErrorKind::PermissionDenied, "denied")) {
        CertError::Io(cause) => assert_eq!(cause.kind(), std::io::ErrorKind::PermissionDenied),
        other => panic!("{:?}", other),
    }
}

#[test]
fn answer_does_not_depend_on_the_request() {
    assert_eq!(GREETING, "Hello from secure TLS server!");
    assert_eq!(response_body(), GREETING);
    for (method, path) in [("GET", "/"), ("POST", "/submit"), ("DELETE", "/a/b?c=d"), ("", "")] {
        assert_eq!(handle_request(method, path), "Hello from secure TLS server!");
    }
}
