//! The certificate generator, `rcgen`, as the library sees it.
//!
//! Everything in this file is believed, not proved. The generator's
//! parameters and certificates are opaque values; what they state is named
//! here, and each item below says over those names what the generator's
//! source shows of the call it makes. Keys and signatures are random, so the
//! text of a certificate is not named: it is only said whose parameters it
//! states and whose key signed it.

use crate::ip::IpAddress;
use crate::request::{is_timestamp, is_writable, DnField, KeyUsage, RequestView, SubjectAltName};
use vstd::prelude::*;

verus! {

/// The generator's `CertificateParams`: what a certificate is to state.
#[verifier::external_type_specification]
#[verifier::external_body]
pub struct ExCertificateParams(rcgen::CertificateParams);

/// The generator's `Certificate`: parameters together with a key pair.
#[verifier::external_type_specification]
#[verifier::external_body]
pub struct ExCertificate(rcgen::Certificate);

/// What the parameters `p` state: the entries of `distinguished_name` in
/// their order, `not_before` and `not_after` as Unix seconds, whether `is_ca`
/// is an unconstrained authority, and the entries of `key_usages` and of
/// `subject_alt_names`.
pub uninterp spec fn params_view(p: rcgen::CertificateParams) -> RequestView;

/// What the parameters state that the certificate `c` was made from.
pub uninterp spec fn certificate_view(c: rcgen::Certificate) -> RequestView;

/// Whether the parameters `p` are as [`blank_params`] made them but for what
/// the functions of this file have set since: no key pair is supplied, the
/// algorithm is the generator's default, there is no serial number, name
/// constraint or custom extension, the subject's values are UTF-8 strings,
/// and the alternative names are DNS names and IP addresses.
pub uninterp spec fn is_plain(p: rcgen::CertificateParams) -> bool;

/// Whether the certificate `c` holds such plain parameters and a key pair
/// that the generator made for them itself, which it therefore holds in
/// memory and can write out.
pub uninterp spec fn is_generated(c: rcgen::Certificate) -> bool;

/// Whether `pem` is a certificate in PEM that `Certificate::serialize_pem` or
/// `serialize_pem_with_signer` wrote for `subject`, with the parameters and
/// the public key of `subject`, signed with the key pair of `issuer`.
pub uninterp spec fn is_signed_by(
    pem: Seq<char>,
    subject: rcgen::Certificate,
    issuer: rcgen::Certificate,
) -> bool;

/// The private key of `c` in PKCS#8, as PEM text:
/// what `Certificate::serialize_private_key_pem` returns for it.
pub uninterp spec fn key_text_of(c: rcgen::Certificate) -> Seq<char>;

/// `CertificateParams::new` with no name, and an empty `DistinguishedName`
/// in place of the default one. The result has no subject attribute, no key
/// usage and no alternative name, and is no authority; its window is the
/// generator's default, of which nothing is said. All else is the
/// generator's default, which is what `is_plain` names.
#[verifier::external_body]
pub(crate) fn blank_params() -> (p: rcgen::CertificateParams)
    ensures
        is_plain(p),
        params_view(p).subject.len() == 0,
        params_view(p).key_usages.len() == 0,
        params_view(p).sans.len() == 0,
        !params_view(p).authority,
{
    let mut p = rcgen::CertificateParams::new(Vec::<String>::new());
    p.distinguished_name = rcgen::DistinguishedName::new();
    p
}

/// Sets `not_before` and `not_after` through
/// `time::OffsetDateTime::from_unix_timestamp`, which takes every instant of
/// the years 0 to 9999. Nothing else changes.
#[verifier::external_body]
pub(crate) fn set_window(p: &mut rcgen::CertificateParams, not_before: i64, not_after: i64)
    requires
        is_timestamp(not_before as int),
        is_timestamp(not_after as int),
    ensures
        params_view(*final(p)) == (RequestView {
            not_before: not_before as int,
            not_after: not_after as int,
            ..params_view(*old(p))
        }),
        is_plain(*final(p)) == is_plain(*old(p)),
{
    p.not_before = time::OffsetDateTime::from_unix_timestamp(not_before).unwrap();
    p.not_after = time::OffsetDateTime::from_unix_timestamp(not_after).unwrap();
}

/// `DistinguishedName::push` on the subject, with the value as a UTF-8
/// string. An attribute type that the name does not hold yet is added after
/// those it holds. Nothing else changes.
#[verifier::external_body]
pub(crate) fn push_attribute(p: &mut rcgen::CertificateParams, field: DnField, value: &str)
    requires
        forall|i: int|
            0 <= i < params_view(*old(p)).subject.len() ==> (#[trigger] params_view(
                *old(p),
            ).subject[i]).0 != field,
    ensures
        params_view(*final(p)) == (RequestView {
            subject: params_view(*old(p)).subject.push((field, value@)),
            ..params_view(*old(p))
        }),
        is_plain(*final(p)) == is_plain(*old(p)),
{
    let ty = match field {
        DnField::Country => rcgen::DnType::CountryName,
        DnField::Locality => rcgen::DnType::LocalityName,
        DnField::Organization => rcgen::DnType::OrganizationName,
        DnField::CommonName => rcgen::DnType::CommonName,
    };
    p.distinguished_name.push(ty, value);
}

/// Sets `is_ca` to an authority without a path length constraint. Nothing
/// else changes.
#[verifier::external_body]
pub(crate) fn mark_authority(p: &mut rcgen::CertificateParams)
    ensures
        params_view(*final(p)) == (RequestView { authority: true, ..params_view(*old(p)) }),
        is_plain(*final(p)) == is_plain(*old(p)),
{
    p.is_ca = rcgen::IsCa::Ca(rcgen::BasicConstraints::Unconstrained);
}

/// Appends one purpose to `key_usages`. Nothing else changes.
#[verifier::external_body]
pub(crate) fn push_key_usage(p: &mut rcgen::CertificateParams, usage: KeyUsage)
    ensures
        params_view(*final(p)) == (RequestView {
            key_usages: params_view(*old(p)).key_usages.push(usage),
            ..params_view(*old(p))
        }),
        is_plain(*final(p)) == is_plain(*old(p)),
{
    p.key_usages.push(
        match usage {
            KeyUsage::DigitalSignature => rcgen::KeyUsagePurpose::DigitalSignature,
            KeyUsage::KeyCertSign => rcgen::KeyUsagePurpose::KeyCertSign,
            KeyUsage::CrlSign => rcgen::KeyUsagePurpose::CrlSign,
        },
    );
}

/// Appends one name to `subject_alt_names`: a DNS name with its text, an IP
/// address with its bytes in network order. Nothing else changes.
#[verifier::external_body]
pub(crate) fn push_san(p: &mut rcgen::CertificateParams, name: &SubjectAltName)
    ensures
        params_view(*final(p)) == (RequestView {
            sans: params_view(*old(p)).sans.push(name@),
            ..params_view(*old(p))
        }),
        is_plain(*final(p)) == is_plain(*old(p)),
{
    let san = match name {
        SubjectAltName::DnsName(text) => rcgen::SanType::DnsName(text.clone()),
        SubjectAltName::IpAddress(IpAddress::V4(bits)) => rcgen::SanType::IpAddress(
            bits.to_be_bytes().into(),
        ),
        SubjectAltName::IpAddress(IpAddress::V6(bits)) => rcgen::SanType::IpAddress(
            bits.to_be_bytes().into(),
        ),
    };
    p.subject_alt_names.push(san);
}

/// `Certificate::from_params`: makes a key pair and keeps the parameters as
/// they are. Where the parameters supply no key pair, as plain ones do not,
/// the key pair is the generator's own. It fails where no key can be made.
#[verifier::external_body]
pub(crate) fn generate(p: rcgen::CertificateParams) -> (r: Result<
    rcgen::Certificate,
    rcgen::RcgenError,
>)
    ensures
        r matches Ok(c) ==> certificate_view(c) == params_view(p) && (is_plain(p)
            ==> is_generated(c)),
{
    rcgen::Certificate::from_params(p)
}

/// `Certificate::serialize_pem`: the certificate, signed with its own key.
/// The generator panics on a date outside the years 0 to 9999, on a name
/// that is not ASCII and on a subject value that is no string of its kind,
/// which `requires` leaves out.
#[verifier::external_body]
pub(crate) fn self_signed_pem(c: &rcgen::Certificate) -> (r: Result<String, rcgen::RcgenError>)
    requires
        is_generated(*c),
        is_writable(certificate_view(*c)),
    ensures
        r matches Ok(pem) ==> is_signed_by(pem@, *c, *c),
{
    c.serialize_pem()
}

/// `Certificate::serialize_pem_with_signer`: the certificate `c`, signed
/// with the key of `issuer` and naming the subject of `issuer` as its issuer.
/// The generator panics as it does for `serialize_pem`, and on a subject
/// value of `issuer` that is no string of its kind.
#[verifier::external_body]
pub(crate) fn signed_pem(c: &rcgen::Certificate, issuer: &rcgen::Certificate) -> (r: Result<
    String,
    rcgen::RcgenError,
>)
    requires
        is_generated(*c),
        is_generated(*issuer),
        is_writable(certificate_view(*c)),
    ensures
        r matches Ok(pem) ==> is_signed_by(pem@, *c, *issuer),
{
    c.serialize_pem_with_signer(issuer)
}

/// `Certificate::serialize_private_key_pem`, which panics where the key pair
/// is held remotely. A key pair that the generator made itself is not.
#[verifier::external_body]
pub(crate) fn private_key_pem(c: &rcgen::Certificate) -> (pem: String)
    requires
        is_generated(*c),
    ensures
        pem@ == key_text_of(*c),
{
    c.serialize_private_key_pem()
}

} // verus!
