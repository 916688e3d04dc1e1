//! Validated configuration model for named backend service endpoints.
//!
//! A raw, dynamically typed configuration table is checked field by field and
//! turned into a strongly typed set of backend definitions, with precise,
//! per-field errors on malformed input.

mod backend;
mod error;
mod header;
mod laws;
mod text;
mod uri;
mod value;

pub use backend::{
    backend_matches, cert_host_accepted, entry_accepted, entry_error_matches,
    entry_value_accepted, field_str, first_bad_index, first_unknown, grpc_accepted, is_known_key,
    keys_recognized, lemma_first_bad_index, lemma_first_unknown, override_host_accepted,
    spec_grpc, spec_known_key, spec_use_sni, url_accepted, url_is_string, url_present, url_str,
    use_sni_accepted, value_error_matches, Backend, BackendsConfig,
};
pub use error::{BackendConfigError, BackendsConfigError};
pub use header::{header_char_ok, header_value_ok};
pub use laws::{
    lemma_absent_fields_default, lemma_blank_cert_host, lemma_blank_override_host,
    lemma_error_names_first_failure, lemma_missing_url, lemma_revalidation_agrees,
    lemma_unrecognized_key, lemma_url_not_string, lemma_url_unparseable,
};
pub use text::{blank, is_blank, is_space, str_eq};
pub use uri::uri_parses;
pub use value::{has_key, index_of_key, key_value, lemma_index_of_key, Table, Value};
