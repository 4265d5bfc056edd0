//! What a certificate is asked to say: its subject, the window in which it
//! is valid, what its key may be used for, and the names it is valid for.
//!
//! A request that exists is one that the generator can carry out: its window
//! is not empty, both ends can be written with a four-digit year, and every
//! DNS name is ASCII text.

use crate::error::{CertError, GenerationError};
use crate::ip::{ip_address_value, parse_ip_address, IpAddress};
use vstd::prelude::*;
use vstd::string::StringExecFns;
use vstd::string::StringExecFnsIsAscii;
use vstd::string::StringSliceAdditionalSpecFns;
use vstd::utf8::is_ascii_chars;

verus! {

/// The first instant that a certificate can name: the start of the year 0,
/// in seconds since the Unix epoch.
pub const MIN_TIMESTAMP: i64 = -62_167_219_200;

/// The last instant that a certificate can name: the last second of the
/// year 9999, in seconds since the Unix epoch.
pub const MAX_TIMESTAMP: i64 = 253_402_300_799;

/// The length of a day in seconds.
pub const SECONDS_PER_DAY: i64 = 86_400;

/// Whether a certificate can name the instant `t`.
pub open spec fn is_timestamp(t: int) -> bool {
    MIN_TIMESTAMP <= t <= MAX_TIMESTAMP
}

/// Whether `[not_before, not_after)` is a window that a certificate can
/// hold: not empty, and both ends instants that it can name.
pub open spec fn is_window(not_before: int, not_after: int) -> bool {
    is_timestamp(not_before) && is_timestamp(not_after) && not_before < not_after
}

/// An attribute of a distinguished name.
#[derive(Clone, Copy, Debug, PartialEq, Eq, Structural)]
pub enum DnField {
    Country,
    Locality,
    Organization,
    CommonName,
}

/// A purpose that a certificate allows its key.
#[derive(Clone, Copy, Debug, PartialEq, Eq, Structural)]
pub enum KeyUsage {
    DigitalSignature,
    KeyCertSign,
    CrlSign,
}

/// A subject alternative name, as a certificate holds it.
#[verifier::ext_equal]
pub enum SanView {
    /// A DNS name.
    DnsName(Seq<char>),
    /// An IP address.
    IpAddress(IpAddress),
}

/// What a certificate states, apart from its key and signature.
#[verifier::ext_equal]
pub struct RequestView {
    /// The attributes of the subject, in the order in which they are written.
    pub subject: Seq<(DnField, Seq<char>)>,
    /// The first second of the validity window, since the Unix epoch.
    pub not_before: int,
    /// The second at which the certificate is no longer valid.
    pub not_after: int,
    /// Whether the certificate may sign others, with no limit on the length
    /// of the chain below it.
    pub authority: bool,
    /// The purposes allowed to the key.
    pub key_usages: Seq<KeyUsage>,
    /// The subject alternative names.
    pub sans: Seq<SanView>,
}

/// Whether `name` may stand in a certificate as a DNS name: such a name is
/// written as ASCII text.
pub open spec fn san_is_writable(name: SanView) -> bool {
    name matches SanView::DnsName(text) ==> is_ascii_chars(text)
}

/// Whether the generator can write a certificate that states `view`.
pub open spec fn is_writable(view: RequestView) -> bool {
    &&& is_timestamp(view.not_before)
    &&& is_timestamp(view.not_after)
    &&& forall|i: int| 0 <= i < view.sans.len() ==> san_is_writable(#[trigger] view.sans[i])
}

/// The key usages of a certificate authority: it signs certificates and
/// data, and revocation lists if `crl_sign` is set.
pub open spec fn authority_usages(crl_sign: bool) -> Seq<KeyUsage> {
    if crl_sign {
        seq![KeyUsage::KeyCertSign, KeyUsage::DigitalSignature, KeyUsage::CrlSign]
    } else {
        seq![KeyUsage::KeyCertSign, KeyUsage::DigitalSignature]
    }
}

/// The attribute list that one optional field contributes.
pub open spec fn attribute(field: DnField, value: Option<String>) -> Seq<(DnField, Seq<char>)> {
    match value {
        Some(text) => seq![(field, text@)],
        None => Seq::empty(),
    }
}

/// The subject of a certificate. A field that is `None` is left out.
#[derive(Clone, Debug)]
pub struct DistinguishedName {
    pub country: Option<String>,
    pub locality: Option<String>,
    pub organization: Option<String>,
    pub common_name: Option<String>,
}

impl DistinguishedName {
    /// The attributes in the order in which they are written: country,
    /// locality, organization, common name.
    pub open spec fn attributes(&self) -> Seq<(DnField, Seq<char>)> {
        attribute(DnField::Country, self.country) + attribute(DnField::Locality, self.locality)
            + attribute(DnField::Organization, self.organization) + attribute(
            DnField::CommonName,
            self.common_name,
        )
    }

    /// A name made of an organization and a common name.
    pub fn named(organization: &str, common_name: &str) -> (name: DistinguishedName)
        ensures
            name.attributes() == seq![
                (DnField::Organization, organization@),
                (DnField::CommonName, common_name@),
            ],
    {
        let name = DistinguishedName {
            country: None,
            locality: None,
            organization: Some(String::from_str(organization)),
            common_name: Some(String::from_str(common_name)),
        };
        name
    }
}

/// The half-open window `[not_before, not_after)` in which a certificate is
/// valid, in seconds since the Unix epoch.
#[derive(Clone, Copy, Debug)]
pub struct Validity {
    not_before: i64,
    not_after: i64,
}

impl Validity {
    #[verifier::type_invariant]
    spec fn well_formed(self) -> bool {
        is_window(self.not_before as int, self.not_after as int)
    }

    /// The first second of the window.
    pub closed spec fn start(&self) -> int {
        self.not_before as int
    }

    /// The second at which the window has ended.
    pub closed spec fn end(&self) -> int {
        self.not_after as int
    }

    /// The window from `not_before` up to `not_after`, if it is one that a
    /// certificate can hold.
    pub fn new(not_before: i64, not_after: i64) -> (r: Result<Validity, CertError>)
        ensures
            is_window(not_before as int, not_after as int) ==> (r matches Ok(v) && v.start()
                == not_before && v.end() == not_after),
            !is_window(not_before as int, not_after as int) ==> r matches Err(
                CertError::CertificateGeneration(GenerationError::InvalidValidity),
            ),
    {
        if MIN_TIMESTAMP <= not_before && not_before < not_after && not_after <= MAX_TIMESTAMP {
            Ok(Validity { not_before, not_after })
        } else {
            Err(CertError::CertificateGeneration(GenerationError::InvalidValidity))
        }
    }

    /// The window of `days` whole days that starts at `not_before`.
    pub fn for_days(not_before: i64, days: u32) -> (r: Result<Validity, CertError>)
        ensures
            is_window(not_before as int, not_before + days * SECONDS_PER_DAY) ==> (r matches Ok(v)
                && v.start() == not_before && v.end() == not_before + days * SECONDS_PER_DAY),
            !is_window(not_before as int, not_before + days * SECONDS_PER_DAY) ==> r matches Err(
                CertError::CertificateGeneration(GenerationError::InvalidValidity),
            ),
    {
        if not_before < MIN_TIMESTAMP || not_before > MAX_TIMESTAMP {
            return Err(CertError::CertificateGeneration(GenerationError::InvalidValidity));
        }
        let length: i64 = days as i64 * SECONDS_PER_DAY;
        Validity::new(not_before, not_before + length)
    }

    /// The first second of the window.
    pub fn not_before(&self) -> (t: i64)
        ensures
            t == self.start(),
            is_window(self.start(), self.end()),
    {
        proof {
            use_type_invariant(self);
        }
        self.not_before
    }

    /// The second at which the window has ended.
    pub fn not_after(&self) -> (t: i64)
        ensures
            t == self.end(),
            is_window(self.start(), self.end()),
    {
        proof {
            use_type_invariant(self);
        }
        self.not_after
    }

    /// Whether the instant `t` lies in the window. The window is half-open:
    /// its first second belongs to it, its end does not.
    pub fn contains(&self, t: i64) -> (r: bool)
        ensures
            r == (self.start() <= t < self.end()),
    {
        self.not_before <= t && t < self.not_after
    }
}

/// A name or address that a server certificate is valid for.
#[derive(Clone, Debug)]
pub enum SubjectAltName {
    /// A DNS name.
    DnsName(String),
    /// An IP address.
    IpAddress(IpAddress),
}

impl View for SubjectAltName {
    type V = SanView;

    open spec fn view(&self) -> SanView {
        match self {
            SubjectAltName::DnsName(name) => SanView::DnsName(name@),
            SubjectAltName::IpAddress(address) => SanView::IpAddress(*address),
        }
    }
}

impl SubjectAltName {
    /// The address that `text` spells. A text that is no IP literal is
    /// refused, and the error carries it.
    pub fn ip_address(text: &str) -> (r: Result<SubjectAltName, CertError>)
        ensures
            match ip_address_value(text.spec_bytes()) {
                Some(address) => r matches Ok(name) && name@ == SanView::IpAddress(address),
                None => r matches Err(
                    CertError::CertificateGeneration(GenerationError::InvalidSan(refused)),
                ) && refused@ == text@,
            },
    {
        match parse_ip_address(text) {
            Some(address) => Ok(SubjectAltName::IpAddress(address)),
            None => Err(
                CertError::CertificateGeneration(
                    GenerationError::InvalidSan(String::from_str(text)),
                ),
            ),
        }
    }

    /// The DNS name `name`. A name that is not ASCII text is refused, and the
    /// error carries it.
    pub fn dns_name(name: &str) -> (r: Result<SubjectAltName, CertError>)
        ensures
            is_ascii_chars(name@) ==> (r matches Ok(made) && made@ == SanView::DnsName(name@)),
            !is_ascii_chars(name@) ==> (r matches Err(
                CertError::CertificateGeneration(GenerationError::InvalidSan(refused)),
            ) && refused@ == name@),
    {
        if name.is_ascii() {
            Ok(SubjectAltName::DnsName(String::from_str(name)))
        } else {
            Err(
                CertError::CertificateGeneration(
                    GenerationError::InvalidSan(String::from_str(name)),
                ),
            )
        }
    }

    /// Whether the name may stand in a certificate.
    pub fn is_writable(&self) -> (r: bool)
        ensures
            r == san_is_writable(self@),
    {
        match self {
            SubjectAltName::DnsName(name) => name.is_ascii(),
            SubjectAltName::IpAddress(_) => true,
        }
    }
}

/// The names in `sans`, as a certificate holds them.
pub open spec fn san_views(sans: Seq<SubjectAltName>) -> Seq<SanView> {
    Seq::new(sans.len(), |i: int| sans[i]@)
}

/// What the certificate of an authority states.
pub open spec fn authority_view(
    subject: DistinguishedName,
    validity: Validity,
    crl_sign: bool,
) -> RequestView {
    RequestView {
        subject: subject.attributes(),
        not_before: validity.start(),
        not_after: validity.end(),
        authority: true,
        key_usages: authority_usages(crl_sign),
        sans: Seq::empty(),
    }
}

/// What the certificate of a server states.
pub open spec fn server_view(
    subject: DistinguishedName,
    validity: Validity,
    sans: Seq<SubjectAltName>,
) -> RequestView {
    RequestView {
        subject: subject.attributes(),
        not_before: validity.start(),
        not_after: validity.end(),
        authority: false,
        key_usages: Seq::empty(),
        sans: san_views(sans),
    }
}

/// A server's certificate states the window that was asked for, to the
/// second.
pub proof fn lemma_window_is_kept(
    subject: DistinguishedName,
    validity: Validity,
    sans: Seq<SubjectAltName>,
)
    ensures
        server_view(subject, validity, sans).not_before == validity.start(),
        server_view(subject, validity, sans).not_after == validity.end(),
{
}

/// A server's certificate states the names that were asked for: each of
/// them, as it was given, and no other.
pub proof fn lemma_names_are_kept(
    subject: DistinguishedName,
    validity: Validity,
    sans: Seq<SubjectAltName>,
)
    ensures
        server_view(subject, validity, sans).sans.len() == sans.len(),
        forall|i: int|
            0 <= i < sans.len() ==> server_view(subject, validity, sans).sans[i] == sans[i]@,
        forall|name: SanView|
            server_view(subject, validity, sans).sans.contains(name) <==> exists|i: int|
                0 <= i < sans.len() && #[trigger] sans[i]@ == name,
{
    let stated = server_view(subject, validity, sans).sans;
    assert forall|name: SanView| stated.contains(name) implies exists|i: int|
        0 <= i < sans.len() && #[trigger] sans[i]@ == name by {
        let i = choose|i: int| 0 <= i < stated.len() && stated[i] == name;
        assert(sans[i]@ == name);
    }
    assert forall|name: SanView|
        (exists|i: int| 0 <= i < sans.len() && #[trigger] sans[i]@ == name) implies stated.contains(
        name,
    ) by {
        let i = choose|i: int| 0 <= i < sans.len() && #[trigger] sans[i]@ == name;
        assert(stated[i] == name);
    }
}

/// The parameters of one certificate, checked and ready for the generator.
#[derive(Debug)]
pub struct CertificateRequest {
    subject: DistinguishedName,
    validity: Validity,
    authority: bool,
    crl_sign: bool,
    sans: Vec<SubjectAltName>,
}

impl View for CertificateRequest {
    type V = RequestView;

    closed spec fn view(&self) -> RequestView {
        if self.authority {
            authority_view(self.subject, self.validity, self.crl_sign)
        } else {
            server_view(self.subject, self.validity, self.sans@)
        }
    }
}

impl CertificateRequest {
    #[verifier::type_invariant]
    spec fn well_formed(self) -> bool {
        &&& is_window(self.validity.start(), self.validity.end())
        &&& forall|i: int| 0 <= i < self.sans.len() ==> san_is_writable(#[trigger] self.sans[i]@)
        &&& (self.authority ==> self.sans.len() == 0)
        &&& (!self.authority ==> self.sans.len() > 0 && !self.crl_sign)
    }

    /// The request for the certificate of an authority: one that may sign
    /// certificates, with no limit on the chain below it, and that names no
    /// host.
    pub fn authority(subject: DistinguishedName, validity: Validity, crl_sign: bool) -> (r:
        CertificateRequest)
        ensures
            r@ == authority_view(subject, validity, crl_sign),
    {
        let _ = validity.not_before();
        CertificateRequest { subject, validity, authority: true, crl_sign, sans: Vec::new() }
    }

    /// The request for the certificate of a server that answers to `sans`.
    ///
    /// A server needs a name: an empty list is refused. So is a list that
    /// holds a DNS name which is not ASCII text, and the error carries the
    /// first such name.
    pub fn server(subject: DistinguishedName, validity: Validity, sans: Vec<SubjectAltName>) -> (r:
        Result<CertificateRequest, CertError>)
        ensures
            sans.len() == 0 ==> r matches Err(
                CertError::CertificateGeneration(GenerationError::MissingSubjectAltName),
            ),
            sans.len() > 0 && (forall|i: int| 0 <= i < sans.len() ==> san_is_writable(sans[i]@))
                ==> (r matches Ok(request) && request@ == server_view(subject, validity, sans@)),
            forall|i: int|
                0 <= i < sans.len() && !san_is_writable(#[trigger] sans[i]@) && (forall|j: int|
                    0 <= j < i ==> san_is_writable(sans[j]@)) ==> (r matches Err(
                    CertError::CertificateGeneration(GenerationError::InvalidSan(refused)),
                ) && sans[i]@ == SanView::DnsName(refused@)),
    {
        if sans.len() == 0 {
            return Err(CertError::CertificateGeneration(GenerationError::MissingSubjectAltName));
        }
        let mut i: usize = 0;
        while i < sans.len()
            invariant
                i <= sans.len(),
                forall|j: int| 0 <= j < i ==> san_is_writable(sans[j]@),
            decreases sans.len() - i,
        {
            match &sans[i] {
                SubjectAltName::DnsName(name) => {
                    if !name.is_ascii() {
                        return Err(
                            CertError::CertificateGeneration(
                                GenerationError::InvalidSan(name.clone()),
                            ),
                        );
                    }
                },
                SubjectAltName::IpAddress(_) => {},
            }
            i = i + 1;
        }
        let _ = validity.not_before();
        Ok(CertificateRequest { subject, validity, authority: false, crl_sign: false, sans })
    }

    /// The subject of the certificate.
    pub fn subject(&self) -> (subject: &DistinguishedName)
        ensures
            subject.attributes() == self@.subject,
    {
        &self.subject
    }

    /// The window in which the certificate is valid.
    pub fn validity(&self) -> (validity: Validity)
        ensures
            validity.start() == self@.not_before,
            validity.end() == self@.not_after,
            is_window(self@.not_before, self@.not_after),
    {
        let _ = self.validity.not_before();
        self.validity
    }

    /// Whether the certificate is that of an authority.
    pub fn is_authority(&self) -> (authority: bool)
        ensures
            authority == self@.authority,
    {
        self.authority
    }

    /// Whether the key may sign revocation lists. Only an authority's may,
    /// and a server's certificate names no key usage at all.
    pub fn signs_crls(&self) -> (crl_sign: bool)
        ensures
            self@.authority ==> self@.key_usages == authority_usages(crl_sign),
            !self@.authority ==> !crl_sign && self@.key_usages == Seq::<KeyUsage>::empty(),
    {
        proof {
            use_type_invariant(self);
        }
        self.crl_sign
    }

    /// The subject alternative names. An authority has none, a server at
    /// least one, and each can be written into a certificate.
    pub fn sans(&self) -> (sans: &Vec<SubjectAltName>)
        ensures
            san_views(sans@) == self@.sans,
            self@.authority == (sans.len() == 0),
            forall|i: int| 0 <= i < sans.len() ==> san_is_writable(#[trigger] sans[i]@),
    {
        proof {
            use_type_invariant(self);
        }
        &self.sans
    }
}

} // verus!
