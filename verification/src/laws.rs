//! The guarantees the validating parser gives, stated on their own.
//!
//! Each proof function here fixes one consequence of the parser's contracts:
//! what `Backend::try_from` and `BackendsConfig::try_from` ensure pins the
//! outcome down to these statements.

use vstd::prelude::*;
use crate::backend::{
    backend_matches, cert_host_accepted, entry_accepted, entry_error_matches,
    entry_value_accepted, first_bad_index, first_unknown, grpc_accepted, lemma_first_bad_index,
    lemma_first_unknown, override_host_accepted, spec_known_key, url_accepted, url_is_string,
    url_str, use_sni_accepted, Backend,
};
use crate::error::{BackendConfigError, BackendsConfigError};
use crate::text::blank;
use crate::uri::uri_parses;
use crate::value::{has_key, key_value, Value};

verus! {

/// An entry whose optional boolean fields are absent configures `use_sni =
/// true` and `grpc = false`; present fields configure their literal values.
pub proof fn lemma_absent_fields_default(t: Seq<(String, Value)>, b: Backend)
    requires
        backend_matches(b, t),
        !has_key(t, "use_sni"@),
        !has_key(t, "grpc"@),
    ensures
        b.use_sni == true,
        b.grpc == false,
{
}

/// An entry without a `url` key is rejected, and the error is `MissingUrl`,
/// whatever other fields the entry holds.
pub proof fn lemma_missing_url(t: Seq<(String, Value)>, e: BackendConfigError)
    requires
        !has_key(t, "url"@),
        entry_error_matches(e, t),
    ensures
        !entry_accepted(t),
        e is MissingUrl,
{
}

/// An entry whose `url` is present but not a string is rejected, and the
/// error is `InvalidUrlEntry`.
pub proof fn lemma_url_not_string(t: Seq<(String, Value)>, e: BackendConfigError)
    requires
        has_key(t, "url"@),
        !(key_value(t, "url"@) is String),
        entry_error_matches(e, t),
    ensures
        !entry_accepted(t),
        e is InvalidUrlEntry,
{
}

/// An entry whose `url` string fails URI parsing is rejected; the error
/// wraps the parser's own error, and no backend (with any default URI) comes
/// out.
pub proof fn lemma_url_unparseable(t: Seq<(String, Value)>, e: BackendConfigError)
    requires
        url_is_string(t),
        !uri_parses(url_str(t)),
        entry_error_matches(e, t),
    ensures
        !entry_accepted(t),
        e is InvalidUri,
{
}

/// An entry whose `override_host` is a blank string is rejected with
/// `EmptyOverrideHost`, once `url` itself passed.
pub proof fn lemma_blank_override_host(t: Seq<(String, Value)>, e: BackendConfigError)
    requires
        url_accepted(t),
        has_key(t, "override_host"@),
        key_value(t, "override_host"@) matches Value::String(s) && blank(s@),
        entry_error_matches(e, t),
    ensures
        !entry_accepted(t),
        e is EmptyOverrideHost,
{
}

/// An entry whose `cert_host` is a blank string is rejected with
/// `EmptyCertHost`, once `url` and `override_host` passed.
pub proof fn lemma_blank_cert_host(t: Seq<(String, Value)>, e: BackendConfigError)
    requires
        url_accepted(t),
        override_host_accepted(t),
        has_key(t, "cert_host"@),
        key_value(t, "cert_host"@) matches Value::String(s) && blank(s@),
        entry_error_matches(e, t),
    ensures
        !entry_accepted(t),
        e is EmptyCertHost,
{
}

/// An entry that carries a key outside the recognized five is rejected once
/// every field check passed, and the error names one such key: the first
/// unrecognized one in table order.
pub proof fn lemma_unrecognized_key(t: Seq<(String, Value)>, e: BackendConfigError)
    requires
        url_accepted(t),
        override_host_accepted(t),
        cert_host_accepted(t),
        use_sni_accepted(t),
        grpc_accepted(t),
        exists|j: int| 0 <= j < t.len() && !spec_known_key((#[trigger] t[j]).0@),
        entry_error_matches(e, t),
    ensures
        !entry_accepted(t),
        e matches BackendConfigError::UnrecognizedKey(k) && k@ == t[first_unknown(t)].0@
            && !spec_known_key(k@),
{
    lemma_first_unknown(t);
}

/// Validation is deterministic: two backends that the same entry sequence
/// describes agree on every field, so validating a table twice yields
/// structurally identical backends.
pub proof fn lemma_revalidation_agrees(t: Seq<(String, Value)>, b1: Backend, b2: Backend)
    requires
        backend_matches(b1, t),
        backend_matches(b2, t),
    ensures
        b1.uri@ == b2.uri@,
        b1.override_host is Some <==> b2.override_host is Some,
        b1.override_host matches Some(h1) ==> b2.override_host matches Some(h2) && h1@ == h2@,
        b1.cert_host is Some <==> b2.cert_host is Some,
        b1.cert_host matches Some(h1) ==> b2.cert_host matches Some(h2) && h1@ == h2@,
        b1.use_sni == b2.use_sni,
        b1.grpc == b2.grpc,
{
}

/// The error of a failed table conversion names the first failing entry: if
/// every entry before `i` passes and entry `i` fails, the surfaced name is
/// the name of entry `i`.
pub proof fn lemma_error_names_first_failure(t: Seq<(String, Value)>, e: BackendsConfigError, i: int)
    requires
        0 <= i < t.len(),
        forall|j: int| 0 <= j < i ==> entry_value_accepted((#[trigger] t[j]).1),
        !entry_value_accepted(t[i].1),
        e.name@ == t[first_bad_index(t)].0@,
    ensures
        e.name@ == t[i].0@,
{
    lemma_first_bad_index(t);
    let bad = first_bad_index(t);
    if bad > i {
        assert(entry_value_accepted(t[i].1));
    }
    if bad < i {
        assert(entry_value_accepted(t[bad].1));
    }
}

} // verus!
