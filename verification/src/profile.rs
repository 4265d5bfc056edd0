//! The server in its usual set-up: an authority and a server certificate
//! for the local host, valid for a year from the moment of start-up, and a
//! listener on the loopback address.

use crate::error::{CertError, GenerationError};
use crate::generator::{is_signed_by, key_text_of};
use crate::ip::IpAddress;
use crate::issuer::{
    is_generator_failure, issue_ca, issue_leaf, CertificateAuthority, IssuedCertificate, Signer,
};
use crate::request::{
    authority_usages, is_window, san_is_writable, san_views, DistinguishedName, DnField,
    RequestView, SanView, SubjectAltName, Validity, SECONDS_PER_DAY,
};
use vstd::prelude::*;
use vstd::string::StringExecFns;
use vstd::utf8::is_ascii_chars;

verus! {

/// The address and port on which the server listens.
pub const LISTEN_ADDRESS: &'static str = "127.0.0.1:8443";

/// For how many days from start-up the certificates are valid.
pub const VALIDITY_DAYS: u32 = 365;

/// The loopback address, 127.0.0.1.
pub const LOOPBACK: u32 = 0x7f00_0001;

/// The second at which a window that starts at `now` ends.
pub open spec fn standard_end(now: int) -> int {
    now + VALIDITY_DAYS * SECONDS_PER_DAY
}

/// What the authority's certificate states when it is issued at `now`.
pub open spec fn standard_ca_view(now: int) -> RequestView {
    RequestView {
        subject: seq![
            (DnField::Organization, "My Root CA"@),
            (DnField::CommonName, "My Root CA"@),
        ],
        not_before: now,
        not_after: standard_end(now),
        authority: true,
        key_usages: authority_usages(true),
        sans: Seq::empty(),
    }
}

/// The names that the server answers to: the local host by name, and the
/// loopback address both as a name and as an address.
pub open spec fn standard_sans() -> Seq<SanView> {
    seq![
        SanView::DnsName("localhost"@),
        SanView::DnsName("127.0.0.1"@),
        SanView::IpAddress(IpAddress::V4(LOOPBACK)),
    ]
}

/// What the server's certificate states when it is issued at `now`.
pub open spec fn standard_server_view(now: int) -> RequestView {
    RequestView {
        subject: seq![
            (DnField::Organization, "My Server"@),
            (DnField::CommonName, "localhost"@),
        ],
        not_before: now,
        not_after: standard_end(now),
        authority: false,
        key_usages: Seq::empty(),
        sans: standard_sans(),
    }
}

/// The names of the server are ASCII text.
pub proof fn lemma_standard_names_are_ascii()
    ensures
        is_ascii_chars("localhost"@),
        is_ascii_chars("127.0.0.1"@),
{
    reveal_strlit("localhost");
    reveal_strlit("127.0.0.1");
}

/// The names that the server answers to.
pub fn standard_names() -> (names: Vec<SubjectAltName>)
    ensures
        names.len() == 3,
        san_views(names@) == standard_sans(),
        forall|i: int| 0 <= i < names.len() ==> san_is_writable(#[trigger] names[i]@),
{
    let mut names: Vec<SubjectAltName> = Vec::new();
    names.push(SubjectAltName::DnsName(String::from_str("localhost")));
    names.push(SubjectAltName::DnsName(String::from_str("127.0.0.1")));
    names.push(SubjectAltName::IpAddress(IpAddress::V4(LOOPBACK)));
    proof {
        lemma_standard_names_are_ascii();
    }
    names
}

/// Whether `ca` and `server` are the pair of the usual set-up as issued at
/// `now`: the authority signed by itself, the server's certificate signed by
/// the authority, each stating what its view says.
pub open spec fn is_standard_pair(
    ca: CertificateAuthority,
    server: IssuedCertificate,
    now: int,
) -> bool {
    &&& ca.own().terms() == standard_ca_view(now)
    &&& ca.own().signed_by() == Signer::SelfSigned
    &&& is_signed_by(ca.own().certificate_text(), ca.own().generated(), ca.own().generated())
    &&& server.terms() == standard_server_view(now)
    &&& server.signed_by() == Signer::Authority
    &&& is_signed_by(server.certificate_text(), server.generated(), ca.own().generated())
    &&& server.private_key_text() == key_text_of(server.generated())
}

/// Issues the authority and, signed by it, the server's certificate, both
/// valid for [`VALIDITY_DAYS`] days from `now`.
///
/// A moment from which no such window can be written is refused before
/// anything is generated. From any other moment the two certificates state
/// what [`standard_ca_view`] and [`standard_server_view`] say, and an error
/// is the generator's.
pub fn issue_pair(now: i64) -> (r: Result<(CertificateAuthority, IssuedCertificate), CertError>)
    ensures
        !is_window(now as int, standard_end(now as int)) ==> r matches Err(
            CertError::CertificateGeneration(GenerationError::InvalidValidity),
        ),
        is_window(now as int, standard_end(now as int)) ==> match r {
            Ok((ca, server)) => is_standard_pair(ca, server, now as int),
            Err(e) => is_generator_failure(e),
        },
{
    let validity = match Validity::for_days(now, VALIDITY_DAYS) {
        Ok(validity) => validity,
        Err(e) => {
            return Err(e);
        },
    };
    let ca = match issue_ca(DistinguishedName::named("My Root CA", "My Root CA"), validity, true) {
        Ok(ca) => ca,
        Err(e) => {
            return Err(e);
        },
    };
    let names = standard_names();
    let server = match issue_leaf(
        DistinguishedName::named("My Server", "localhost"),
        validity,
        names,
        &ca,
    ) {
        Ok(server) => server,
        Err(e) => {
            return Err(e);
        },
    };
    Ok((ca, server))
}

/// `time::OffsetDateTime::now_utc`, as whole seconds since the Unix epoch.
/// The clock decides what comes back, so nothing is said of it.
#[verifier::external_body]
pub(crate) fn unix_now() -> (now: i64) {
    time::OffsetDateTime::now_utc().unix_timestamp()
}

/// Issues the pair of the usual set-up as of the present moment.
///
/// Whatever the clock says: either the pair is the one issued at some moment
/// from which a window can be written, or nothing was issued, because the
/// clock gave no such moment or because the generator failed.
pub fn issue_pair_now() -> (r: Result<(CertificateAuthority, IssuedCertificate), CertError>)
    ensures
        match r {
            Ok((ca, server)) => exists|now: int|
                is_window(now, standard_end(now)) && #[trigger] is_standard_pair(ca, server, now),
            Err(e) => is_generator_failure(e) || e matches CertError::CertificateGeneration(
                GenerationError::InvalidValidity,
            ),
        },
{
    let now = unix_now();
    issue_pair(now)
}

} // verus!
