//! The layered error taxonomy of the validating parser.

use vstd::prelude::*;

verus! {

/// What went wrong with one backend entry. The first field to fail, in the
/// fixed order `url`, `override_host`, `cert_host`, `use_sni`, `grpc`, then
/// the check for leftover keys, decides the variant.
#[derive(Debug)]
pub enum BackendConfigError {
    /// The entry itself is not a table of fields.
    InvalidEntryType,
    /// The required `url` field is absent.
    MissingUrl,
    /// The `url` field is present but not a string.
    InvalidUrlEntry,
    /// The `url` string is not a well-formed URI; carries the parser's error.
    InvalidUri(http::uri::InvalidUri),
    /// The `override_host` field is present but not a string.
    InvalidOverrideHostEntry,
    /// The `override_host` string is empty after trimming.
    EmptyOverrideHost,
    /// The `override_host` string is no valid header value; carries the
    /// validator's error.
    InvalidHeaderValue(http::header::InvalidHeaderValue),
    /// The `cert_host` field is present but not a string.
    InvalidCertHostEntry,
    /// The `cert_host` string is empty after trimming.
    EmptyCertHost,
    /// The `use_sni` field is present but not a boolean.
    InvalidUseSniEntry,
    /// The `grpc` field is present but not a boolean.
    InvalidGrpcEntry,
    /// A field outside the recognized set; names the first such key.
    UnrecognizedKey(String),
}

/// A failure of the whole table conversion: the name of the first backend
/// entry that failed, and what was wrong with it.
#[derive(Debug)]
pub struct BackendsConfigError {
    pub name: String,
    pub err: BackendConfigError,
}

} // verus!
