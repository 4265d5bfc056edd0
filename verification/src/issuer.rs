//! Issuing certificates: first an authority that signs itself, then server
//! certificates that the authority signs.
//!
//! The generator makes the keys and the signatures, and what it does is
//! believed, not proved. What is proved here is what it is asked for and
//! what is kept of its answers: that the parameters handed to it state the
//! request and nothing else, that the text kept for a server's certificate
//! is the one that the generator signed with the authority's key, that the
//! key kept with it is that of the same certificate, and which error each
//! failure becomes.

use crate::error::{CertError, GenerationError};
use crate::generator::{
    blank_params, certificate_view, generate, is_generated, is_plain, is_signed_by, key_text_of,
    mark_authority, params_view, private_key_pem, push_attribute, push_key_usage, push_san,
    self_signed_pem, set_window, signed_pem,
};
use crate::request::{
    attribute, authority_view, is_writable, san_is_writable, san_views, server_view,
    CertificateRequest, DistinguishedName, DnField, KeyUsage, RequestView, SanView,
    SubjectAltName, Validity,
};
use vstd::prelude::*;

verus! {

/// Whose key signed a certificate.
#[derive(Clone, Copy, Debug, PartialEq, Eq, Structural)]
pub enum Signer {
    /// The certificate's own key.
    SelfSigned,
    /// The key of a certificate authority.
    Authority,
}

/// Whether `pem` is the certificate of `subject`, signed with the key of
/// some certificate that is an authority.
pub open spec fn is_signed_by_authority(pem: Seq<char>, subject: rcgen::Certificate) -> bool {
    exists|issuer: rcgen::Certificate|
        certificate_view(issuer).authority && #[trigger] is_signed_by(pem, subject, issuer)
}

/// A key pair and its certificate, both as PEM text, as the generator wrote
/// them.
pub struct IssuedCertificate {
    inner: rcgen::Certificate,
    certificate_pem: String,
    private_key_pem: String,
    signer: Signer,
}

impl IssuedCertificate {
    #[verifier::type_invariant]
    spec fn well_formed(self) -> bool {
        self.is_sound()
    }

    /// The generator's certificate: its parameters and its key pair.
    pub closed spec fn generated(&self) -> rcgen::Certificate {
        self.inner
    }

    /// What the certificate states: the parameters that the generator holds
    /// for it.
    pub closed spec fn terms(&self) -> RequestView {
        certificate_view(self.inner)
    }

    /// Whose key signed the certificate.
    pub closed spec fn signed_by(&self) -> Signer {
        self.signer
    }

    /// The certificate as PEM text.
    pub closed spec fn certificate_text(&self) -> Seq<char> {
        self.certificate_pem@
    }

    /// The private key as PEM text.
    pub closed spec fn private_key_text(&self) -> Seq<char> {
        self.private_key_pem@
    }

    /// What holds of every issued certificate. Its key pair is the
    /// generator's own, and the key text is that key pair's. The certificate
    /// text is what the generator wrote for it: signed with its own key where
    /// it is self-signed, and else with the key of a certificate that is an
    /// authority.
    pub open spec fn is_sound(&self) -> bool {
        &&& is_generated(self.generated())
        &&& self.private_key_text() == key_text_of(self.generated())
        &&& match self.signed_by() {
            Signer::SelfSigned => is_signed_by(
                self.certificate_text(),
                self.generated(),
                self.generated(),
            ),
            Signer::Authority => is_signed_by_authority(
                self.certificate_text(),
                self.generated(),
            ),
        }
    }

    /// The certificate as PEM text.
    pub fn certificate_pem(&self) -> (pem: &str)
        ensures
            pem@ == self.certificate_text(),
    {
        self.certificate_pem.as_str()
    }

    /// The private key as PEM text.
    pub fn private_key_pem(&self) -> (pem: &str)
        ensures
            pem@ == self.private_key_text(),
    {
        self.private_key_pem.as_str()
    }

    /// Whose key signed the certificate.
    pub fn signer(&self) -> (signer: Signer)
        ensures
            signer == self.signed_by(),
            self.is_sound(),
    {
        proof {
            use_type_invariant(self);
        }
        self.signer
    }
}

/// A certificate authority: a self-signed certificate that may sign others,
/// with the key pair that signs them.
pub struct CertificateAuthority {
    issued: IssuedCertificate,
}

impl CertificateAuthority {
    #[verifier::type_invariant]
    spec fn well_formed(self) -> bool {
        &&& self.issued.terms().authority
        &&& self.issued.signed_by() == Signer::SelfSigned
        &&& self.issued.is_sound()
    }

    /// The authority's own certificate and key.
    pub closed spec fn own(&self) -> IssuedCertificate {
        self.issued
    }

    /// The authority's own certificate and key. The certificate is that of
    /// an authority, and its text is signed with its own key.
    pub fn issued(&self) -> (issued: &IssuedCertificate)
        ensures
            *issued == self.own(),
            issued.terms().authority,
            issued.signed_by() == Signer::SelfSigned,
            issued.is_sound(),
    {
        proof {
            use_type_invariant(self);
        }
        &self.issued
    }
}

/// Adds the attribute `field` to the subject of `p` if `value` holds one.
fn push_optional_attribute(p: &mut rcgen::CertificateParams, field: DnField, value: &Option<String>)
    requires
        forall|i: int|
            0 <= i < params_view(*old(p)).subject.len() ==> (#[trigger] params_view(
                *old(p),
            ).subject[i]).0 != field,
    ensures
        params_view(*final(p)) == (RequestView {
            subject: params_view(*old(p)).subject + attribute(field, *value),
            ..params_view(*old(p))
        }),
        is_plain(*final(p)) == is_plain(*old(p)),
{
    if let Some(text) = value {
        push_attribute(p, field, text.as_str());
    }
}

/// The generator's parameters for `request`: they state what the request
/// states, and nothing else, and the generator can write them. All that the
/// request does not speak of is left as the generator has it.
pub fn to_params(request: &CertificateRequest) -> (p: rcgen::CertificateParams)
    ensures
        params_view(p) == request@,
        is_writable(request@),
        is_plain(p),
{
    let mut p = blank_params();
    let validity = request.validity();
    set_window(&mut p, validity.not_before(), validity.not_after());
    let subject = request.subject();
    push_optional_attribute(&mut p, DnField::Country, &subject.country);
    push_optional_attribute(&mut p, DnField::Locality, &subject.locality);
    push_optional_attribute(&mut p, DnField::Organization, &subject.organization);
    push_optional_attribute(&mut p, DnField::CommonName, &subject.common_name);
    let crl_sign = request.signs_crls();
    if request.is_authority() {
        mark_authority(&mut p);
        push_key_usage(&mut p, KeyUsage::KeyCertSign);
        push_key_usage(&mut p, KeyUsage::DigitalSignature);
        if crl_sign {
            push_key_usage(&mut p, KeyUsage::CrlSign);
        }
    }
    let sans = request.sans();
    let mut i: usize = 0;
    while i < sans.len()
        invariant
            i <= sans.len(),
            san_views(sans@) == request@.sans,
            params_view(p) == (RequestView { sans: san_views(sans@).take(i as int), ..request@ }),
            is_plain(p),
        decreases sans.len() - i,
    {
        push_san(&mut p, &sans[i]);
        i = i + 1;
    }
    p
}

/// What is kept of the generator's answers for one certificate: the text
/// of the certificate with the text of its key where it signed, and its
/// error where it could not.
pub fn conclude(certificate: Result<String, rcgen::RcgenError>, private_key: String) -> (r: Result<
    (String, String),
    CertError,
>)
    ensures
        match certificate {
            Ok(pem) => r == Ok::<(String, String), CertError>((pem, private_key)),
            Err(cause) => r matches Err(
                CertError::CertificateGeneration(GenerationError::Generator(reported)),
            ) && reported == cause,
        },
{
    match certificate {
        Ok(pem) => Ok((pem, private_key)),
        Err(cause) => Err(CertError::from(cause)),
    }
}

/// Whether `e` is a failure of the generator itself, not of the request.
pub open spec fn is_generator_failure(e: CertError) -> bool {
    e matches CertError::CertificateGeneration(cause) && cause is Generator
}

/// Issues the certificate of an authority and signs it with its own key.
///
/// The parameters handed to the generator are those of
/// [`authority_view`], the text kept is the one that the generator signed
/// with the certificate's own key, and the key kept is that key. Nothing in
/// the parameters is refused here, so an error is the generator's.
pub fn issue_ca(subject: DistinguishedName, validity: Validity, crl_sign: bool) -> (r: Result<
    CertificateAuthority,
    CertError,
>)
    ensures
        match r {
            Ok(ca) => {
                &&& ca.own().terms() == authority_view(subject, validity, crl_sign)
                &&& ca.own().signed_by() == Signer::SelfSigned
                &&& is_signed_by(
                    ca.own().certificate_text(),
                    ca.own().generated(),
                    ca.own().generated(),
                )
                &&& ca.own().private_key_text() == key_text_of(ca.own().generated())
            },
            Err(e) => is_generator_failure(e),
        },
{
    let request = CertificateRequest::authority(subject, validity, crl_sign);
    let params = to_params(&request);
    match generate(params) {
        Err(cause) => Err(CertError::from(cause)),
        Ok(inner) => {
            let certificate = self_signed_pem(&inner);
            let key = private_key_pem(&inner);
            match conclude(certificate, key) {
                Ok((certificate_pem, private_key_pem)) => {
                    let issued = IssuedCertificate {
                        inner,
                        certificate_pem,
                        private_key_pem,
                        signer: Signer::SelfSigned,
                    };
                    Ok(CertificateAuthority { issued })
                },
                Err(e) => Err(e),
            }
        },
    }
}

/// Issues a server certificate for `sans` and signs it with the key of `ca`.
///
/// An empty list of names is refused, and so is a DNS name that is not
/// ASCII text; both before the generator is asked for anything. Otherwise the
/// parameters handed to the generator are those of [`server_view`], the text
/// kept is the one that the generator signed with the key of `ca`, the key
/// kept is the certificate's own, and an error is the generator's.
pub fn issue_leaf(
    subject: DistinguishedName,
    validity: Validity,
    sans: Vec<SubjectAltName>,
    ca: &CertificateAuthority,
) -> (r: Result<IssuedCertificate, CertError>)
    ensures
        sans.len() == 0 ==> r matches Err(
            CertError::CertificateGeneration(GenerationError::MissingSubjectAltName),
        ),
        forall|i: int|
            0 <= i < sans.len() && !san_is_writable(#[trigger] sans[i]@) && (forall|j: int|
                0 <= j < i ==> san_is_writable(sans[j]@)) ==> (r matches Err(
                CertError::CertificateGeneration(GenerationError::InvalidSan(refused)),
            ) && sans[i]@ == SanView::DnsName(refused@)),
        sans.len() > 0 && (forall|i: int| 0 <= i < sans.len() ==> san_is_writable(sans[i]@))
            ==> match r {
            Ok(leaf) => {
                &&& leaf.terms() == server_view(subject, validity, sans@)
                &&& leaf.signed_by() == Signer::Authority
                &&& is_signed_by(
                    leaf.certificate_text(),
                    leaf.generated(),
                    ca.own().generated(),
                )
                &&& leaf.private_key_text() == key_text_of(leaf.generated())
            },
            Err(e) => is_generator_failure(e),
        },
{
    let request = match CertificateRequest::server(subject, validity, sans) {
        Ok(request) => request,
        Err(e) => {
            return Err(e);
        },
    };
    let params = to_params(&request);
    match generate(params) {
        Err(cause) => Err(CertError::from(cause)),
        Ok(inner) => {
            let issuer = ca.issued();
            let certificate = signed_pem(&inner, &issuer.inner);
            let key = private_key_pem(&inner);
            match conclude(certificate, key) {
                Ok((certificate_pem, private_key_pem)) => {
                    assert(is_signed_by_authority(certificate_pem@, inner)) by {
                        assert(is_signed_by(certificate_pem@, inner, issuer.inner));
                    }
                    Ok(
                        IssuedCertificate {
                            inner,
                            certificate_pem,
                            private_key_pem,
                            signer: Signer::Authority,
                        },
                    )
                },
                Err(e) => Err(e),
            }
        },
    }
}

} // verus!
