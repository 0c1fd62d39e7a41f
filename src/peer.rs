//! Reading the peer's certificates out of an established TLS session through
//! openssl, and building the report from what was read.

use vstd::prelude::*;
use openssl::asn1::Asn1Time;
use openssl::nid::Nid;
use openssl::ssl::SslRef;
use openssl::x509::X509;
use crate::error::{ErrorKind, TLSValidationError};
use crate::validity::diff_well_formed;
use crate::report::{
    Certificate, IssuerRecord, LeafRecord, LinkRecord, SubjectRecord, chain_missing_text,
    leaf_days, leaf_missing_text, leaf_secs, report_matches, report_of,
};

verus! {

#[verifier::external_type_specification]
#[verifier::external_body]
pub struct ExX509(X509);

#[verifier::external_type_specification]
#[verifier::external_body]
pub struct ExSslRef(SslRef);

#[verifier::external_type_specification]
#[verifier::external_body]
pub struct ExAsn1Time(Asn1Time);

/// OpenSSL's numeric identifiers of the distinguished-name attributes read.
pub const NID_COMMON_NAME: i32 = 13;
pub const NID_COUNTRY: i32 = 14;
pub const NID_LOCALITY: i32 = 15;
pub const NID_STATE_OR_PROVINCE: i32 = 16;
pub const NID_ORGANIZATION: i32 = 17;
pub const NID_ORGANIZATIONAL_UNIT: i32 = 18;

/// Relies on `X509NameRef::entries_by_nid` over the subject name and on
/// `Asn1StringRef::as_utf8`: the first entry with identifier `nid`, `None`
/// where there is none, `Some(None)` where its data is not valid text.
#[verifier::external_body]
fn subject_entry(cert: &X509, nid: i32) -> (r: Option<Option<String>>) {
    match cert.subject_name().entries_by_nid(Nid::from_raw(nid)).next() {
        None => None,
        Some(entry) => Some(entry.data().as_utf8().ok().map(|s| s.to_string())),
    }
}

/// Relies on `X509NameRef::entries_by_nid` over the issuer name and on
/// `Asn1StringRef::as_utf8`, as `subject_entry` does.
#[verifier::external_body]
fn issuer_entry(cert: &X509, nid: i32) -> (r: Option<Option<String>>) {
    match cert.issuer_name().entries_by_nid(Nid::from_raw(nid)).next() {
        None => None,
        Some(entry) => Some(entry.data().as_utf8().ok().map(|s| s.to_string())),
    }
}

/// Relies on `Asn1TimeRef`'s `Display` for `X509Ref::not_before`.
#[verifier::external_body]
fn not_before_text(cert: &X509) -> (r: String) {
    cert.not_before().to_string()
}

/// Relies on `Asn1TimeRef`'s `Display` for `X509Ref::not_after`.
#[verifier::external_body]
fn not_after_text(cert: &X509) -> (r: String) {
    cert.not_after().to_string()
}

/// Relies on `Asn1Time::days_from_now(0)`: the current time, `None` where
/// openssl could not produce it.
#[verifier::external_body]
fn current_time() -> (r: Option<Asn1Time>) {
    Asn1Time::days_from_now(0).ok()
}

/// Relies on `Asn1TimeRef::diff` (OpenSSL's `ASN1_TIME_diff`) from `from` to
/// the certificate's `not_after`: whole days and leftover seconds, the seconds
/// less than a day and, where both are non-zero, of the days' sign; `None`
/// where openssl reports an error.
#[verifier::external_body]
fn diff_to_not_after(from: &Asn1Time, cert: &X509) -> (r: Option<(i32, i32)>)
    ensures
        r matches Some(d) ==> diff_well_formed(d.0 as int, d.1 as int),
{
    from.diff(cert.not_after()).ok().map(|d| (d.days, d.secs))
}

/// Relies on `Asn1IntegerRef::to_bn` and `BigNumRef::to_dec_str`: the serial
/// number in decimal, `None` where either reports an error.
#[verifier::external_body]
fn serial_decimal(cert: &X509) -> (r: Option<String>) {
    match cert.serial_number().to_bn() {
        Ok(bn) => bn.to_dec_str().ok().map(|s| s.to_string()),
        Err(_) => None,
    }
}

/// Relies on `X509Ref::version`.
#[verifier::external_body]
fn version_number(cert: &X509) -> (r: i32) {
    cert.version()
}

/// Relies on `Asn1ObjectRef`'s `Display` for the signature algorithm's object.
#[verifier::external_body]
fn algorithm_text(cert: &X509) -> (r: String) {
    cert.signature_algorithm().object().to_string()
}

/// Relies on `X509Ref::subject_alt_names` and `GeneralNameRef::dnsname`: for
/// each general name its DNS name, `None` for one of another type (and for a
/// DNS name that is not valid UTF-8, which `dnsname` does not tell apart);
/// `None` where the extension is missing.
#[verifier::external_body]
fn alt_dns_entries(cert: &X509) -> (r: Option<Vec<Option<String>>>) {
    cert.subject_alt_names().map(
        |names| names.iter().map(|n| n.dnsname().map(|d| d.to_string())).collect(),
    )
}

/// Relies on `SslRef::peer_certificate`: the peer's leaf certificate, if any.
#[verifier::external_body]
fn peer_leaf(ssl: &SslRef) -> (r: Option<X509>) {
    ssl.peer_certificate()
}

/// Relies on `SslRef::peer_cert_chain`: the certificates that the peer
/// presented, in its order, if any.
#[verifier::external_body]
fn peer_chain(ssl: &SslRef) -> (r: Option<Vec<X509>>) {
    ssl.peer_cert_chain().map(|chain| chain.iter().map(|c| c.to_owned()).collect())
}

/// Reads the subject attributes of `cert`.
pub fn read_subject(cert: &X509) -> (r: SubjectRecord) {
    SubjectRecord {
        country_or_region: subject_entry(cert, NID_COUNTRY),
        state_or_province: subject_entry(cert, NID_STATE_OR_PROVINCE),
        locality: subject_entry(cert, NID_LOCALITY),
        organization_unit: subject_entry(cert, NID_ORGANIZATIONAL_UNIT),
        organization: subject_entry(cert, NID_ORGANIZATION),
        common_name: subject_entry(cert, NID_COMMON_NAME),
    }
}

/// Reads the issuer attributes of `cert`.
pub fn read_issuer(cert: &X509) -> (r: IssuerRecord) {
    IssuerRecord {
        country_or_region: issuer_entry(cert, NID_COUNTRY),
        organization: issuer_entry(cert, NID_ORGANIZATION),
        common_name: issuer_entry(cert, NID_COMMON_NAME),
    }
}

/// Reads what a chain summary reports of `cert`.
pub fn read_link(cert: &X509) -> (r: LinkRecord) {
    LinkRecord {
        subject_cn: subject_entry(cert, NID_COMMON_NAME),
        issuer_cn: issuer_entry(cert, NID_COMMON_NAME),
        valid_from: not_before_text(cert),
        valid_to: not_after_text(cert),
        algorithm: algorithm_text(cert),
    }
}

/// Reads what the report says of the leaf `cert`, with the validity taken
/// at the current instant.
pub fn read_leaf(cert: &X509) -> (r: LeafRecord)
    ensures
        r.diff matches Some(d) ==> diff_well_formed(d.0 as int, d.1 as int),
{
    let diff = match current_time() {
        Some(now) => diff_to_not_after(&now, cert),
        None => None,
    };
    LeafRecord {
        subject: read_subject(cert),
        issuer: read_issuer(cert),
        valid_from: not_before_text(cert),
        valid_to: not_after_text(cert),
        diff,
        serial: serial_decimal(cert),
        version: version_number(cert),
        algorithm: algorithm_text(cert),
        alt_names: alt_dns_entries(cert),
    }
}

/// Reads each certificate of a chain, in order.
pub fn read_links(chain: &Vec<X509>) -> (r: Vec<LinkRecord>)
    ensures
        r@.len() == chain@.len(),
{
    let mut out: Vec<LinkRecord> = Vec::new();
    let mut i: usize = 0;
    while i < chain.len()
        invariant
            i <= chain.len(),
            out@.len() == i,
        decreases chain.len() - i,
    {
        out.push(read_link(&chain[i]));
        i = i + 1;
    }
    out
}

/// Reads each certificate of the chain that the session presents, if any.
pub fn read_chain(ssl: &SslRef) -> (r: Option<Vec<LinkRecord>>) {
    match peer_chain(ssl) {
        Some(chain) => Some(read_links(&chain)),
        None => None,
    }
}

/// Reads the leaf certificate that the session presents, if any.
pub fn read_peer_leaf(ssl: &SslRef) -> (r: Option<LeafRecord>)
    ensures
        r matches Some(l) ==> (l.diff matches Some(d) ==> diff_well_formed(d.0 as int, d.1 as int)),
{
    match peer_leaf(ssl) {
        Some(cert) => Some(read_leaf(&cert)),
        None => None,
    }
}

impl Certificate {
    /// The report on `host` from the established session `ssl`, built from
    /// the chain and leaf certificate that the peer presented, with validity
    /// taken at the current instant.
    pub fn from(host: &str, ssl: &SslRef) -> (res: Result<Certificate, TLSValidationError>)
        ensures
            res matches Ok(c) ==> exists|leaf: LeafRecord, links: Seq<LinkRecord>|
                #[trigger] report_matches(c, host@, leaf, links) && links.len() >= 1
                    && diff_well_formed(leaf_days(leaf) as int, leaf_secs(leaf) as int),
            res matches Ok(c) ==> c.chain matches Some(cs) && cs@.len() >= 1,
            res matches Ok(c) ==> c.validity_hours == c.validity_days * 24,
            res matches Err(e) ==> (e.kind == ErrorKind::MissingData && (e.details@
                == chain_missing_text() || e.details@ == leaf_missing_text())) || e.kind
                == ErrorKind::Decode,
    {
        let chain = read_chain(ssl);
        let leaf = read_peer_leaf(ssl);
        let res = report_of(host, &chain, &leaf);
        assert(res matches Ok(c) ==> report_matches(c, host@, leaf->0, chain->0@));
        res
    }
}

} // verus!
