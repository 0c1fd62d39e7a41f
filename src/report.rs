//! The inspection report and its assembly from what was read out of the
//! certificates that the peer presented.

use vstd::prelude::*;
use crate::error::{ErrorKind, TLSValidationError};
use crate::fields::{
    decimal_text, entry_decodes, entry_text, entry_view, int_text, opt_view, san_list, san_names,
    views,
};
use crate::validity::{days_in_range, validity_from_diff, validity_of};

verus! {

/// Summary of one certificate of the presented chain.
#[derive(Clone, Debug)]
pub struct Chain {
    pub subject: Option<String>,
    pub issuer: Option<String>,
    pub valid_from: String,
    pub valid_to: String,
    pub signature_algorithm: String,
}

/// Identity of the certificate's subject.
#[derive(Clone, Debug)]
pub struct Subject {
    pub country_or_region: Option<String>,
    pub state_or_province: Option<String>,
    pub locality: Option<String>,
    pub organization_unit: Option<String>,
    pub organization: Option<String>,
    pub common_name: Option<String>,
}

/// Identity of the certificate's issuer.
#[derive(Clone, Debug)]
pub struct Issuer {
    pub country_or_region: Option<String>,
    pub organization: Option<String>,
    pub common_name: Option<String>,
}

/// Everything reported about the certificate that a host presents.
#[derive(Clone, Debug)]
pub struct Certificate {
    pub hostname: String,
    pub subject: Subject,
    pub issued: Issuer,
    pub valid_from: String,
    pub valid_to: String,
    pub validity_days: i32,
    pub validity_hours: i32,
    pub is_expired: bool,
    pub cert_sn: String,
    pub cert_ver: String,
    pub cert_alg: String,
    pub sans: Vec<String>,
    pub chain: Option<Vec<Chain>>,
}

/// The subject attributes as read from a certificate (see `entry_decodes`).
pub struct SubjectRecord {
    pub country_or_region: Option<Option<String>>,
    pub state_or_province: Option<Option<String>>,
    pub locality: Option<Option<String>>,
    pub organization_unit: Option<Option<String>>,
    pub organization: Option<Option<String>>,
    pub common_name: Option<Option<String>>,
}

/// The issuer attributes as read from a certificate.
pub struct IssuerRecord {
    pub country_or_region: Option<Option<String>>,
    pub organization: Option<Option<String>>,
    pub common_name: Option<Option<String>>,
}

/// What is read from one certificate of the chain.
pub struct LinkRecord {
    pub subject_cn: Option<Option<String>>,
    pub issuer_cn: Option<Option<String>>,
    pub valid_from: String,
    pub valid_to: String,
    pub algorithm: String,
}

/// What is read from the leaf certificate. `diff` is the difference from the
/// evaluation instant to `valid_to` as whole days and leftover seconds, `None`
/// where it could not be computed; `serial` is the serial number in decimal,
/// `None` where it could not be rendered; `alt_names` holds the DNS name of
/// each general name of the alternative-names extension (`None` for one of
/// another type or not valid UTF-8), and is `None` where the extension is missing.
pub struct LeafRecord {
    pub subject: SubjectRecord,
    pub issuer: IssuerRecord,
    pub valid_from: String,
    pub valid_to: String,
    pub diff: Option<(i32, i32)>,
    pub serial: Option<String>,
    pub version: i32,
    pub algorithm: String,
    pub alt_names: Option<Vec<Option<String>>>,
}

pub open spec fn subject_decodes(r: SubjectRecord) -> bool {
    &&& entry_decodes(r.country_or_region)
    &&& entry_decodes(r.state_or_province)
    &&& entry_decodes(r.locality)
    &&& entry_decodes(r.organization_unit)
    &&& entry_decodes(r.organization)
    &&& entry_decodes(r.common_name)
}

pub open spec fn subject_matches(s: Subject, r: SubjectRecord) -> bool {
    &&& opt_view(s.country_or_region) == entry_view(r.country_or_region)
    &&& opt_view(s.state_or_province) == entry_view(r.state_or_province)
    &&& opt_view(s.locality) == entry_view(r.locality)
    &&& opt_view(s.organization_unit) == entry_view(r.organization_unit)
    &&& opt_view(s.organization) == entry_view(r.organization)
    &&& opt_view(s.common_name) == entry_view(r.common_name)
}

pub open spec fn issuer_decodes(r: IssuerRecord) -> bool {
    &&& entry_decodes(r.country_or_region)
    &&& entry_decodes(r.organization)
    &&& entry_decodes(r.common_name)
}

pub open spec fn issuer_matches(s: Issuer, r: IssuerRecord) -> bool {
    &&& opt_view(s.country_or_region) == entry_view(r.country_or_region)
    &&& opt_view(s.organization) == entry_view(r.organization)
    &&& opt_view(s.common_name) == entry_view(r.common_name)
}

pub open spec fn link_decodes(r: LinkRecord) -> bool {
    entry_decodes(r.subject_cn) && entry_decodes(r.issuer_cn)
}

pub open spec fn link_matches(c: Chain, r: LinkRecord) -> bool {
    &&& opt_view(c.subject) == entry_view(r.subject_cn)
    &&& opt_view(c.issuer) == entry_view(r.issuer_cn)
    &&& c.valid_from@ == r.valid_from@
    &&& c.valid_to@ == r.valid_to@
    &&& c.signature_algorithm@ == r.algorithm@
}

/// Builds the report of a subject.
pub fn subject_of(r: &SubjectRecord) -> (res: Result<Subject, TLSValidationError>)
    ensures
        res is Ok <==> subject_decodes(*r),
        res matches Ok(s) ==> subject_matches(s, *r),
        res matches Err(e) ==> e.kind == ErrorKind::Decode,
{
    let country_or_region = entry_text(&r.country_or_region)?;
    let state_or_province = entry_text(&r.state_or_province)?;
    let locality = entry_text(&r.locality)?;
    let organization_unit = entry_text(&r.organization_unit)?;
    let common_name = entry_text(&r.common_name)?;
    let organization = entry_text(&r.organization)?;
    Ok(Subject {
        country_or_region,
        state_or_province,
        locality,
        organization_unit,
        organization,
        common_name,
    })
}

/// Builds the report of an issuer.
pub fn issuer_of(r: &IssuerRecord) -> (res: Result<Issuer, TLSValidationError>)
    ensures
        res is Ok <==> issuer_decodes(*r),
        res matches Ok(s) ==> issuer_matches(s, *r),
        res matches Err(e) ==> e.kind == ErrorKind::Decode,
{
    let common_name = entry_text(&r.common_name)?;
    let organization = entry_text(&r.organization)?;
    let country_or_region = entry_text(&r.country_or_region)?;
    Ok(Issuer { country_or_region, organization, common_name })
}

/// Builds the summary of one chain certificate.
pub fn link_of(r: &LinkRecord) -> (res: Result<Chain, TLSValidationError>)
    ensures
        res is Ok <==> link_decodes(*r),
        res matches Ok(c) ==> link_matches(c, *r),
        res matches Err(e) ==> e.kind == ErrorKind::Decode,
{
    let subject = entry_text(&r.subject_cn)?;
    let issuer = entry_text(&r.issuer_cn)?;
    Ok(Chain {
        subject,
        issuer,
        valid_from: r.valid_from.clone(),
        valid_to: r.valid_to.clone(),
        signature_algorithm: r.algorithm.clone(),
    })
}

pub open spec fn links_decode(rs: Seq<LinkRecord>) -> bool {
    forall|i: int| 0 <= i < rs.len() ==> link_decodes(#[trigger] rs[i])
}

pub open spec fn links_match(cs: Seq<Chain>, rs: Seq<LinkRecord>) -> bool {
    &&& cs.len() == rs.len()
    &&& forall|i: int| 0 <= i < rs.len() ==> link_matches(#[trigger] cs[i], rs[i])
}

/// Builds the summaries of the chain certificates, in the order given.
pub fn links_of(rs: &Vec<LinkRecord>) -> (res: Result<Vec<Chain>, TLSValidationError>)
    ensures
        res is Ok <==> links_decode(rs@),
        res matches Ok(cs) ==> links_match(cs@, rs@),
        res matches Err(e) ==> e.kind == ErrorKind::Decode,
{
    let mut out: Vec<Chain> = Vec::new();
    let mut i: usize = 0;
    while i < rs.len()
        invariant
            i <= rs.len(),
            links_decode(rs@.subrange(0, i as int)),
            links_match(out@, rs@.subrange(0, i as int)),
        decreases rs.len() - i,
    {
        let c = match link_of(&rs[i]) {
            Ok(c) => c,
            Err(e) => {
                assert(!link_decodes(rs@[i as int]));
                return Err(e);
            },
        };
        out.push(c);
        i = i + 1;
        assert forall|j: int| 0 <= j < i implies link_decodes(#[trigger] rs@.subrange(0, i as int)[j]) by {
            if j < i - 1 {
                assert(rs@.subrange(0, i as int)[j] == rs@.subrange(0, i - 1)[j]);
            }
        }
    }
    assert(rs@.subrange(0, rs.len() as int) == rs@);
    Ok(out)
}

/// The alternative-names entries of a leaf record as a sequence.
pub open spec fn alt_entries(r: LeafRecord) -> Option<Seq<Option<String>>> {
    match r.alt_names {
        None => None,
        Some(v) => Some(v@),
    }
}

/// Days and seconds from the evaluation instant to `valid_to`.
pub open spec fn leaf_days(r: LeafRecord) -> i32 {
    match r.diff {
        Some(d) => d.0,
        None => 0,
    }
}

pub open spec fn leaf_secs(r: LeafRecord) -> i32 {
    match r.diff {
        Some(d) => d.1,
        None => 0,
    }
}

/// Every mandatory field of the leaf record could be read and decoded.
pub open spec fn leaf_decodes(r: LeafRecord) -> bool {
    &&& subject_decodes(r.subject)
    &&& issuer_decodes(r.issuer)
    &&& r.diff is Some
    &&& days_in_range(leaf_days(r) as int)
    &&& r.serial is Some
}

/// `c` is the report on host `host` for leaf record `r` and chain records `links`.
pub open spec fn report_matches(
    c: Certificate,
    host: Seq<char>,
    r: LeafRecord,
    links: Seq<LinkRecord>,
) -> bool {
    let v = validity_of(leaf_days(r), leaf_secs(r));
    &&& c.hostname@ == host
    &&& subject_matches(c.subject, r.subject)
    &&& issuer_matches(c.issued, r.issuer)
    &&& c.valid_from@ == r.valid_from@
    &&& c.valid_to@ == r.valid_to@
    &&& c.validity_days == v.days
    &&& c.validity_hours == v.hours
    &&& c.is_expired == v.is_expired
    &&& c.cert_sn@ == r.serial->0@
    &&& c.cert_ver@ == decimal_text(r.version as int)
    &&& c.cert_alg@ == r.algorithm@
    &&& views(c.sans@) == san_names(alt_entries(r))
    &&& c.chain matches Some(cs) && links_match(cs@, links)
}

impl Certificate {
    /// Assembles the report on `host` from what was read out of its leaf
    /// certificate and out of each certificate of its chain.
    pub fn assemble(host: &str, leaf: &LeafRecord, links: &Vec<LinkRecord>) -> (res: Result<
        Certificate,
        TLSValidationError,
    >)
        ensures
            res is Ok <==> (links_decode(links@) && leaf_decodes(*leaf)),
            res matches Ok(c) ==> report_matches(c, host@, *leaf, links@),
            res matches Err(e) ==> e.kind == ErrorKind::Decode,
    {
        let chain = links_of(links)?;
        let subject = subject_of(&leaf.subject)?;
        let issued = issuer_of(&leaf.issuer)?;
        let (days, secs) = match leaf.diff {
            Some(d) => d,
            None => {
                return Err(
                    TLSValidationError::with_kind(
                        ErrorKind::Decode,
                        "validity period could not be evaluated",
                    ),
                );
            },
        };
        if days < -89478485 || days > 89478485 {
            return Err(
                TLSValidationError::with_kind(ErrorKind::Decode, "validity period out of range"),
            );
        }
        let validity = validity_from_diff(days, secs);
        let cert_sn = match &leaf.serial {
            Some(s) => s.clone(),
            None => {
                return Err(
                    TLSValidationError::with_kind(
                        ErrorKind::Decode,
                        "serial number could not be rendered",
                    ),
                );
            },
        };
        Ok(Certificate {
            hostname: host.to_owned(),
            subject,
            issued,
            valid_from: leaf.valid_from.clone(),
            valid_to: leaf.valid_to.clone(),
            validity_days: validity.days,
            validity_hours: validity.hours,
            is_expired: validity.is_expired,
            cert_sn,
            cert_ver: int_text(leaf.version),
            cert_alg: leaf.algorithm.clone(),
            sans: san_list(&leaf.alt_names),
            chain: Some(chain),
        })
    }
}

/// Detail of the error for a session that presents no chain.
pub open spec fn chain_missing_text() -> Seq<char> {
    "Peer certificate chain not found"@
}

/// Detail of the error for a session that presents no leaf certificate.
pub open spec fn leaf_missing_text() -> Seq<char> {
    "Certificate not found"@
}

/// The report on `host` from what a session gave: the records read from the
/// chain that the peer presented, and from its leaf certificate. A missing or
/// empty chain, then a missing leaf, is reported before anything else.
pub fn report_of(host: &str, chain: &Option<Vec<LinkRecord>>, leaf: &Option<LeafRecord>) -> (res:
    Result<Certificate, TLSValidationError>)
    ensures
        (chain is None || chain->0@.len() == 0) ==> (res matches Err(e) && e.kind
            == ErrorKind::MissingData && e.details@ == chain_missing_text()),
        (chain is Some && chain->0@.len() > 0 && leaf is None) ==> (res matches Err(e) && e.kind
            == ErrorKind::MissingData && e.details@ == leaf_missing_text()),
        (chain is Some && chain->0@.len() > 0 && leaf is Some) ==> {
            &&& (res is Ok <==> (links_decode(chain->0@) && leaf_decodes(leaf->0)))
            &&& (res matches Ok(r) ==> report_matches(r, host@, leaf->0, chain->0@))
            &&& (res matches Err(e) ==> e.kind == ErrorKind::Decode)
        },
{
    let links = match chain {
        Some(links) if links.len() > 0 => links,
        _ => {
            return Err(
                TLSValidationError::with_kind(
                    ErrorKind::MissingData,
                    "Peer certificate chain not found",
                ),
            );
        },
    };
    let record = match leaf {
        Some(record) => record,
        None => {
            return Err(
                TLSValidationError::with_kind(ErrorKind::MissingData, "Certificate not found"),
            );
        },
    };
    Certificate::assemble(host, record, links)
}

/// Where the first chain certificate is the leaf itself (its names read the
/// same), the first chain summary names the subject and issuer that the report
/// gives as the leaf's common names.
pub proof fn lemma_first_link_is_leaf(
    c: Certificate,
    host: Seq<char>,
    leaf: LeafRecord,
    links: Seq<LinkRecord>,
)
    requires
        report_matches(c, host, leaf, links),
        links.len() >= 1,
        links[0].subject_cn == leaf.subject.common_name,
        links[0].issuer_cn == leaf.issuer.common_name,
    ensures
        c.chain matches Some(cs) && cs@.len() >= 1 && opt_view(cs@[0].subject) == opt_view(
            c.subject.common_name,
        ) && opt_view(cs@[0].issuer) == opt_view(c.issued.common_name),
{
    let cs = c.chain->0;
    assert(link_matches(cs@[0], links[0]));
}

} // verus!
