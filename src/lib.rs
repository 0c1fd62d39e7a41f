//! Inspection of the certificate that a TLS peer presents: identity fields,
//! validity window, expiry, serial, signature algorithm, alternative names and
//! the presented chain, read from an established session without any trust
//! verification.

pub mod error;
pub mod fields;
pub mod peer;
pub mod report;
pub mod validity;

pub use error::{ErrorKind, TLSValidationError};
pub use report::{Certificate, Chain, Issuer, Subject};
