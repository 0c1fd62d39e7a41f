//! One error type for every way an inspection can fail, with the failure's
//! kind kept beside its human-readable detail.

use vstd::prelude::*;

verus! {

/// The stage at which an inspection failed.
#[derive(Clone, Copy, Debug, PartialEq, Eq, Structural)]
pub enum ErrorKind {
    /// The TLS client could not be configured.
    Setup,
    /// The host name did not resolve to an address.
    Resolution,
    /// The transport connection failed, was refused or timed out.
    Connection,
    /// The TLS handshake failed.
    Handshake,
    /// The session holds no peer chain or no peer certificate.
    MissingData,
    /// A mandatory certificate field could not be decoded.
    Decode,
}

/// The single error surfaced by an inspection.
#[derive(Debug)]
pub struct TLSValidationError {
    pub kind: ErrorKind,
    pub details: String,
}

/// Detail text of every handshake failure: the cause is deliberately collapsed.
pub open spec fn handshake_failed_text() -> Seq<char> {
    "TLS handshake failed."@
}

impl TLSValidationError {
    /// An error of the given kind carrying `msg` as its detail.
    pub fn with_kind(kind: ErrorKind, msg: &str) -> (r: TLSValidationError)
        ensures
            r.kind == kind,
            r.details@ == msg@,
    {
        TLSValidationError { kind, details: msg.to_owned() }
    }

    /// An error carrying `msg` as its detail; its kind is `Setup`, the kind
    /// of a failure to prepare the TLS client.
    pub fn new(msg: &str) -> (r: TLSValidationError)
        ensures
            r.kind == ErrorKind::Setup,
            r.details@ == msg@,
    {
        Self::with_kind(ErrorKind::Setup, msg)
    }

    /// The host name did not resolve; `msg` is the resolver's own text.
    pub fn resolution(msg: &str) -> (r: TLSValidationError)
        ensures
            r.kind == ErrorKind::Resolution,
            r.details@ == msg@,
    {
        Self::with_kind(ErrorKind::Resolution, msg)
    }

    /// The transport connection failed; `msg` is the transport's own text.
    pub fn connection(msg: &str) -> (r: TLSValidationError)
        ensures
            r.kind == ErrorKind::Connection,
            r.details@ == msg@,
    {
        Self::with_kind(ErrorKind::Connection, msg)
    }

    /// The handshake failed, for whatever protocol reason.
    pub fn handshake() -> (r: TLSValidationError)
        ensures
            r.kind == ErrorKind::Handshake,
            r.details@ == handshake_failed_text(),
    {
        Self::with_kind(ErrorKind::Handshake, "TLS handshake failed.")
    }
}

} // verus!
