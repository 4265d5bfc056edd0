use tls_bootstrap::error::{CertError, GenerationError};
use tls_bootstrap::ip::{parse_ip_address, IpAddress};
use tls_bootstrap::issuer::Signer;
use tls_bootstrap::profile::{
    issue_pair, issue_pair_now, standard_names, LISTEN_ADDRESS, LOOPBACK, VALIDITY_DAYS,
};
use tls_bootstrap::request::{SubjectAltName, MAX_TIMESTAMP};
use tls_bootstrap::tls::tls_config_for;
use x509_parser::certificate::X509Certificate;
use x509_parser::extensions::GeneralName;
use x509_parser::pem::parse_x509_pem;
use x509_parser::prelude::FromDer;

const NOW: i64 = 1_750_000_000;

fn der_of(pem: &str) -> Vec<u8> {
    parse_x509_pem(pem.as_bytes()).unwrap().1.contents
}

fn texts(name: &x509_parser::x509::X509Name) -> Vec<String> {
    name.iter_attributes().map(|a| a.as_str().unwrap().to_string()).collect()
}

#[test]
fn standard_pair_is_valid_for_a_year_from_now() {
    let (ca, server) = issue_pair(NOW).unwrap();
    assert_eq!(VALIDITY_DAYS, 365);
    for pem in [ca.issued().certificate_pem(), server.certificate_pem()] {
        let der = der_of(pem);
        let (_, cert) = X509Certificate::from_der(&der).unwrap();
        assert_eq!(cert.validity().not_before.timestamp(), NOW);
        assert_eq!(cert.validity().not_after.timestamp(), NOW + 31_536_000);
    }
}

#[test]
fn standard_pair_names_root_and_server() {
    let (ca, server) = issue_pair(NOW).unwrap();
    assert_eq!(ca.issued().signer(), Signer::SelfSigned);
    assert_eq!(server.signer(), Signer::Authority);

    let der = der_of(ca.issued().certificate_pem());
    let (_, cert) = X509Certificate::from_der(&der).unwrap();
    assert_eq!(texts(cert.subject()), vec!["My Root CA", "My Root CA"]);
    assert_eq!(texts(cert.issuer()), vec!["My Root CA", "My Root CA"]);
    assert!(cert.is_ca());
    let usage = cert.key_usage().unwrap().unwrap();
    assert!(usage.value.key_cert_sign() && usage.value.digital_signature() && usage.value.crl_sign());

    let der = der_of(server.certificate_pem());
    let (_, cert) = X509Certificate::from_der(&der).unwrap();
    assert_eq!(texts(cert.subject()), vec!["My Server", "localhost"]);
    assert_eq!(texts(cert.issuer()), vec!["My Root CA", "My Root CA"]);
    assert!(!cert.is_ca());
    let names = cert.subject_alternative_name().unwrap().unwrap();
    let found: Vec<String> = names
        .value
        .general_names
        .iter()
        .map(|name| match name {
            GeneralName::DNSName(text) => format!("dns:{}", text),
            GeneralName::IPAddress(bytes) => format!("ip:{:?}", bytes),
            _ => format!("other"),
        })
        .collect();
    assert_eq!(found, vec!["dns:localhost", "dns:127.0.0.1", "ip:[127, 0, 0, 1]"]);
}

#[test]
fn standard_pair_makes_a_tls_configuration() {
    let (_, server) = issue_pair(NOW).unwrap();
    let config = tls_config_for(&server).unwrap();
    assert_eq!(config.certificate_chain().len(), 1);
    assert_eq!(config.certificate_chain()[0], der_of(server.certificate_pem()));
}

#[test]
fn standard_names_are_the_local_host() {
    let names = standard_names();
    assert_eq!(names.len(), 3);
    assert!(matches!(&names[0], SubjectAltName::DnsName(name) if name == "localhost"));
    assert!(matches!(&names[1], SubjectAltName::DnsName(name) if name == "127.0.0.1"));
    assert!(matches!(&names[2], SubjectAltName::IpAddress(IpAddress::V4(0x7f00_0001))));
    assert_eq!(parse_ip_address("127.0.0.1"), Some(IpAddress::V4(LOOPBACK)));
    assert_eq!(LISTEN_ADDRESS, "127.0.0.1:8443");
    assert!(names.iter().all(|name| name.is_writable()));
}

#[test]
fn moment_without_a_year_to_come_is_refused() {
    for now in [MAX_TIMESTAMP, MAX_TIMESTAMP - 31_536_000 + 1, i64::MAX, i64::MIN] {
        assert!(matches!(
            issue_pair(now),
            Err(CertError::CertificateGeneration(GenerationError::InvalidValidity))
        ));
    }
    assert!(issue_pair(MAX_TIMESTAMP - 31_536_000).is_ok());
}

#[test]
fn pair_of_the_present_moment_is_valid_now() {
    let before =
        std::time::SystemTime::now().duration_since(std::time::UNIX_EPOCH).unwrap().as_secs() as i64;
    let (ca, server) = issue_pair_now().unwrap();
    let after =
        std::time::SystemTime::now().duration_since(std::time::UNIX_EPOCH).unwrap().as_secs() as i64;
    for pem in [ca.issued().certificate_pem(), server.certificate_pem()] {
        let der = der_of(pem);
        let (_, cert) = X509Certificate::from_der(&der).unwrap();
        let start = cert.validity().not_before.timestamp();
        assert!(before <= start && start <= after);
        assert_eq!(cert.validity().not_after.timestamp(), start + 31_536_000);
    }
}
