//! The validated backend definitions and the parser that produces them from a
//! raw configuration table.

use vstd::prelude::*;
use core::str::FromStr;
use crate::error::{BackendConfigError, BackendsConfigError};
use crate::header::header_value_ok;
use crate::text::{blank, is_blank, str_eq};
use crate::uri::uri_parses;
use crate::value::{has_key, key_value, lemma_index_of_key, Table, Value};

verus! {

/// One validated backend definition.
///
/// A value of this type that came out of the parser always satisfies
/// [`wf`](Backend::wf): the URI string parses, and the optional host strings
/// are non-blank; `override_host` is moreover a valid header value.
#[derive(Clone, Debug, PartialEq)]
pub struct Backend {
    /// The destination, as the configured URI string; it parses as a URI.
    pub uri: String,
    /// Optional replacement for the request `Host` header.
    pub override_host: Option<String>,
    /// Optional host identity to validate during TLS.
    pub cert_host: Option<String>,
    /// Whether TLS SNI is sent; `true` when the field is absent.
    pub use_sni: bool,
    /// Whether the backend speaks gRPC; `false` when the field is absent.
    pub grpc: bool,
}

impl Backend {
    /// The invariant every parsed backend satisfies.
    pub open spec fn wf(self) -> bool {
        &&& uri_parses(self.uri@)
        &&& self.override_host matches Some(h) ==> !blank(h@) && header_value_ok(h@)
        &&& self.cert_host matches Some(h) ==> !blank(h@)
    }
}

/// The five field names one backend entry may carry.
pub open spec fn spec_known_key(k: Seq<char>) -> bool {
    ||| k == "url"@
    ||| k == "override_host"@
    ||| k == "cert_host"@
    ||| k == "use_sni"@
    ||| k == "grpc"@
}

/// Whether `k` names one of the recognized entry fields.
pub fn is_known_key(k: &str) -> (r: bool)
    ensures
        r == spec_known_key(k@),
{
    str_eq(k, "url") || str_eq(k, "override_host") || str_eq(k, "cert_host") || str_eq(k, "use_sni")
        || str_eq(k, "grpc")
}

/// Index of the first entry whose key is outside the recognized set, or
/// `t.len()` if every key is recognized.
pub open spec fn first_unknown(t: Seq<(String, Value)>) -> int
    decreases t.len(),
{
    if t.len() == 0 {
        0
    } else if !spec_known_key(t[0].0@) {
        0
    } else {
        1 + first_unknown(t.drop_first())
    }
}

/// Whether every key of the entry is recognized.
pub open spec fn keys_recognized(t: Seq<(String, Value)>) -> bool {
    first_unknown(t) >= t.len()
}

pub proof fn lemma_first_unknown(t: Seq<(String, Value)>)
    ensures
        0 <= first_unknown(t) <= t.len(),
        first_unknown(t) < t.len() ==> !spec_known_key(t[first_unknown(t)].0@),
        forall|j: int| 0 <= j < first_unknown(t) ==> spec_known_key((#[trigger] t[j]).0@),
        (exists|j: int| 0 <= j < t.len() && !spec_known_key((#[trigger] t[j]).0@))
            ==> first_unknown(t) < t.len(),
    decreases t.len(),
{
    if t.len() == 0 {
    } else if !spec_known_key(t[0].0@) {
    } else {
        lemma_first_unknown(t.drop_first());
        assert forall|j: int| 0 <= j < first_unknown(t) implies spec_known_key(
            (#[trigger] t[j]).0@,
        ) by {
            if j > 0 {
                assert(t.drop_first()[j - 1] == t[j]);
            }
        }
        assert forall|j: int|
            0 <= j < t.len() && !spec_known_key((#[trigger] t[j]).0@) implies first_unknown(t)
            < t.len() by {
            assert(t.drop_first()[j - 1] == t[j]);
        }
    }
}

/// The `url` field is present.
pub open spec fn url_present(t: Seq<(String, Value)>) -> bool {
    has_key(t, "url"@)
}

/// The `url` field is present and holds a string.
pub open spec fn url_is_string(t: Seq<(String, Value)>) -> bool {
    url_present(t) && key_value(t, "url"@) is String
}

/// The characters of the `url` string.
pub open spec fn url_str(t: Seq<(String, Value)>) -> Seq<char> {
    key_value(t, "url"@)->String_0@
}

/// The `url` field passes: present, a string, and a well-formed URI.
pub open spec fn url_accepted(t: Seq<(String, Value)>) -> bool {
    url_is_string(t) && uri_parses(url_str(t))
}

/// What an optional string field holds, when present as a string.
pub open spec fn field_str(t: Seq<(String, Value)>, k: Seq<char>) -> Seq<char> {
    key_value(t, k)->String_0@
}

/// The `override_host` field passes: absent, or a non-blank string that is a
/// valid header value.
pub open spec fn override_host_accepted(t: Seq<(String, Value)>) -> bool {
    has_key(t, "override_host"@) ==> {
        &&& key_value(t, "override_host"@) is String
        &&& !blank(field_str(t, "override_host"@))
        &&& header_value_ok(field_str(t, "override_host"@))
    }
}

/// The `cert_host` field passes: absent, or a non-blank string.
pub open spec fn cert_host_accepted(t: Seq<(String, Value)>) -> bool {
    has_key(t, "cert_host"@) ==> {
        &&& key_value(t, "cert_host"@) is String
        &&& !blank(field_str(t, "cert_host"@))
    }
}

/// The `use_sni` field passes: absent or a boolean.
pub open spec fn use_sni_accepted(t: Seq<(String, Value)>) -> bool {
    has_key(t, "use_sni"@) ==> key_value(t, "use_sni"@) is Boolean
}

/// The `grpc` field passes: absent or a boolean.
pub open spec fn grpc_accepted(t: Seq<(String, Value)>) -> bool {
    has_key(t, "grpc"@) ==> key_value(t, "grpc"@) is Boolean
}

/// The whole entry passes validation.
pub open spec fn entry_accepted(t: Seq<(String, Value)>) -> bool {
    &&& url_accepted(t)
    &&& override_host_accepted(t)
    &&& cert_host_accepted(t)
    &&& use_sni_accepted(t)
    &&& grpc_accepted(t)
    &&& keys_recognized(t)
}

/// The `use_sni` value the entry configures; `true` when absent.
pub open spec fn spec_use_sni(t: Seq<(String, Value)>) -> bool {
    if has_key(t, "use_sni"@) {
        key_value(t, "use_sni"@)->Boolean_0
    } else {
        true
    }
}

/// The `grpc` value the entry configures; `false` when absent.
pub open spec fn spec_grpc(t: Seq<(String, Value)>) -> bool {
    if has_key(t, "grpc"@) {
        key_value(t, "grpc"@)->Boolean_0
    } else {
        false
    }
}

/// The backend an accepted entry describes: every field is a function of the
/// entry alone.
pub open spec fn backend_matches(b: Backend, t: Seq<(String, Value)>) -> bool {
    &&& b.uri@ == url_str(t)
    &&& b.override_host is Some <==> has_key(t, "override_host"@)
    &&& b.override_host matches Some(h) ==> h@ == field_str(t, "override_host"@)
    &&& b.cert_host is Some <==> has_key(t, "cert_host"@)
    &&& b.cert_host matches Some(h) ==> h@ == field_str(t, "cert_host"@)
    &&& b.use_sni == spec_use_sni(t)
    &&& b.grpc == spec_grpc(t)
}

/// Which error a failing entry produces. The conditions follow the fixed
/// field order and are mutually exclusive: exactly one variant fits any entry
/// that fails, and none fits an accepted entry.
pub open spec fn entry_error_matches(e: BackendConfigError, t: Seq<(String, Value)>) -> bool {
    match e {
        BackendConfigError::InvalidEntryType => false,
        BackendConfigError::MissingUrl => !url_present(t),
        BackendConfigError::InvalidUrlEntry => url_present(t) && !(key_value(t, "url"@) is String),
        BackendConfigError::InvalidUri(_) => url_is_string(t) && !uri_parses(url_str(t)),
        BackendConfigError::InvalidOverrideHostEntry => {
            &&& url_accepted(t)
            &&& has_key(t, "override_host"@)
            &&& !(key_value(t, "override_host"@) is String)
        },
        BackendConfigError::EmptyOverrideHost => {
            &&& url_accepted(t)
            &&& has_key(t, "override_host"@)
            &&& key_value(t, "override_host"@) is String
            &&& blank(field_str(t, "override_host"@))
        },
        BackendConfigError::InvalidHeaderValue(_) => {
            &&& url_accepted(t)
            &&& has_key(t, "override_host"@)
            &&& key_value(t, "override_host"@) is String
            &&& !blank(field_str(t, "override_host"@))
            &&& !header_value_ok(field_str(t, "override_host"@))
        },
        BackendConfigError::InvalidCertHostEntry => {
            &&& url_accepted(t)
            &&& override_host_accepted(t)
            &&& has_key(t, "cert_host"@)
            &&& !(key_value(t, "cert_host"@) is String)
        },
        BackendConfigError::EmptyCertHost => {
            &&& url_accepted(t)
            &&& override_host_accepted(t)
            &&& has_key(t, "cert_host"@)
            &&& key_value(t, "cert_host"@) is String
            &&& blank(field_str(t, "cert_host"@))
        },
        BackendConfigError::InvalidUseSniEntry => {
            &&& url_accepted(t)
            &&& override_host_accepted(t)
            &&& cert_host_accepted(t)
            &&& has_key(t, "use_sni"@)
            &&& !(key_value(t, "use_sni"@) is Boolean)
        },
        BackendConfigError::InvalidGrpcEntry => {
            &&& url_accepted(t)
            &&& override_host_accepted(t)
            &&& cert_host_accepted(t)
            &&& use_sni_accepted(t)
            &&& has_key(t, "grpc"@)
            &&& !(key_value(t, "grpc"@) is Boolean)
        },
        BackendConfigError::UnrecognizedKey(k) => {
            &&& url_accepted(t)
            &&& override_host_accepted(t)
            &&& cert_host_accepted(t)
            &&& use_sni_accepted(t)
            &&& grpc_accepted(t)
            &&& !keys_recognized(t)
            &&& k@ == t[first_unknown(t)].0@
        },
    }
}

/// Checks the keys left over once the recognized fields are accounted for:
/// any key outside the recognized set fails the entry, naming the first such
/// key in table order.
#[verifier::loop_isolation(false)]
fn check_for_unrecognized_keys(t: &Table) -> (r: Result<(), BackendConfigError>)
    ensures
        r is Ok <==> keys_recognized(t@),
        r matches Err(e) ==> e matches BackendConfigError::UnrecognizedKey(k) && k@
            == t@[first_unknown(t@)].0@,
{
    let n = t.len();
    let mut i: usize = 0;
    while i < n
        invariant
            i <= n,
            forall|j: int| 0 <= j < i ==> spec_known_key((#[trigger] t@[j]).0@),
        decreases n - i,
    {
        let entry = t.entry_at(i);
        if !is_known_key(entry.0.as_str()) {
            proof {
                lemma_first_unknown(t@);
                let fu = first_unknown(t@);
                assert(!spec_known_key((t@[i as int]).0@));
                if fu > i as int {
                    assert(spec_known_key((t@[i as int]).0@));
                }
                if fu < i as int {
                    assert(spec_known_key((t@[fu]).0@));
                }
                assert(fu == i as int);
            }
            return Err(BackendConfigError::UnrecognizedKey(entry.0.clone()));
        }
        i += 1;
    }
    proof {
        lemma_first_unknown(t@);
    }
    Ok(())
}

impl Backend {
    /// Validates one backend entry.
    ///
    /// Succeeds exactly on accepted entries and then returns the backend the
    /// entry describes; on a failing entry it returns the error of the first
    /// field check, in the fixed order `url`, `override_host`, `cert_host`,
    /// `use_sni`, `grpc`, leftover keys.
    #[verifier::loop_isolation(false)]
    pub fn try_from(t: &Table) -> (r: Result<Backend, BackendConfigError>)
        ensures
            r is Ok <==> entry_accepted(t@),
            r matches Ok(b) ==> backend_matches(b, t@) && b.wf(),
            r matches Err(e) ==> entry_error_matches(e, t@),
    {
        let uri: String = match t.get("url") {
            None => {
                return Err(BackendConfigError::MissingUrl);
            },
            Some(v) => match v {
                Value::String(s) => {
                    match http::Uri::from_str(s.as_str()) {
                        Ok(_) => s.clone(),
                        Err(e) => {
                            return Err(BackendConfigError::InvalidUri(e));
                        },
                    }
                },
                _ => {
                    return Err(BackendConfigError::InvalidUrlEntry);
                },
            },
        };

        let override_host: Option<String> = match t.get("override_host") {
            None => None,
            Some(v) => match v {
                Value::String(s) => {
                    if is_blank(s.as_str()) {
                        return Err(BackendConfigError::EmptyOverrideHost);
                    }
                    match http::header::HeaderValue::from_str(s.as_str()) {
                        Ok(_) => Some(s.clone()),
                        Err(e) => {
                            return Err(BackendConfigError::InvalidHeaderValue(e));
                        },
                    }
                },
                _ => {
                    return Err(BackendConfigError::InvalidOverrideHostEntry);
                },
            },
        };

        let cert_host: Option<String> = match t.get("cert_host") {
            None => None,
            Some(v) => match v {
                Value::String(s) => {
                    if is_blank(s.as_str()) {
                        return Err(BackendConfigError::EmptyCertHost);
                    }
                    Some(s.clone())
                },
                _ => {
                    return Err(BackendConfigError::InvalidCertHostEntry);
                },
            },
        };

        let use_sni: bool = match t.get("use_sni") {
            None => true,
            Some(v) => match v {
                Value::Boolean(b) => *b,
                _ => {
                    return Err(BackendConfigError::InvalidUseSniEntry);
                },
            },
        };

        let grpc: bool = match t.get("grpc") {
            None => false,
            Some(v) => match v {
                Value::Boolean(b) => *b,
                _ => {
                    return Err(BackendConfigError::InvalidGrpcEntry);
                },
            },
        };

        match check_for_unrecognized_keys(t) {
            Ok(()) => {},
            Err(e) => {
                return Err(e);
            },
        }

        Ok(Backend { uri, override_host, cert_host, use_sni, grpc })
    }
}

/// Checks that a value is a table of named fields and hands that table back;
/// any other kind of value (a string, a boolean, a number, ...) is an
/// `InvalidEntryType`.
fn into_table(v: &Value) -> (r: Result<&Table, BackendConfigError>)
    ensures
        r is Ok <==> v is Table,
        r matches Ok(t) ==> v matches Value::Table(et) && t@ == et@,
        r matches Err(e) ==> e is InvalidEntryType,
{
    match v {
        Value::Table(t) => Ok(t),
        _ => Err(BackendConfigError::InvalidEntryType),
    }
}

/// Whether one outer-table entry value passes: it is a table, and that table
/// is an accepted backend entry.
pub open spec fn entry_value_accepted(v: Value) -> bool {
    v matches Value::Table(et) && entry_accepted(et@)
}

/// Index of the first outer-table entry that fails, or `s.len()` if all pass.
pub open spec fn first_bad_index(s: Seq<(String, Value)>) -> int
    decreases s.len(),
{
    if s.len() == 0 {
        0
    } else if !entry_value_accepted(s[0].1) {
        0
    } else {
        1 + first_bad_index(s.drop_first())
    }
}

pub proof fn lemma_first_bad_index(s: Seq<(String, Value)>)
    ensures
        0 <= first_bad_index(s) <= s.len(),
        first_bad_index(s) < s.len() ==> !entry_value_accepted(s[first_bad_index(s)].1),
        forall|j: int| 0 <= j < first_bad_index(s) ==> entry_value_accepted((#[trigger] s[j]).1),
        (exists|j: int| 0 <= j < s.len() && !entry_value_accepted((#[trigger] s[j]).1))
            ==> first_bad_index(s) < s.len(),
    decreases s.len(),
{
    if s.len() == 0 {
    } else if !entry_value_accepted(s[0].1) {
    } else {
        lemma_first_bad_index(s.drop_first());
        assert forall|j: int| 0 <= j < first_bad_index(s) implies entry_value_accepted(
            (#[trigger] s[j]).1,
        ) by {
            if j > 0 {
                assert(s.drop_first()[j - 1] == s[j]);
            }
        }
        assert forall|j: int|
            0 <= j < s.len() && !entry_value_accepted((#[trigger] s[j]).1) implies first_bad_index(
            s,
        ) < s.len() by {
            assert(s.drop_first()[j - 1] == s[j]);
        }
    }
}

/// Which error a failing outer-table entry value produces.
pub open spec fn value_error_matches(e: BackendConfigError, v: Value) -> bool {
    match v {
        Value::Table(et) => entry_error_matches(e, et@),
        _ => e is InvalidEntryType,
    }
}

/// The set of validated backends one configuration table describes, keyed by
/// backend name. Every backend in it satisfies [`Backend::wf`].
#[derive(Debug)]
pub struct BackendsConfig {
    pub backends: Vec<(String, Backend)>,
}

impl View for BackendsConfig {
    type V = Seq<(String, Backend)>;

    open spec fn view(&self) -> Seq<(String, Backend)> {
        self.backends@
    }
}

impl BackendsConfig {
    /// How many backends the configuration holds.
    pub fn len(&self) -> (n: usize)
        ensures
            n == self@.len(),
    {
        self.backends.len()
    }

    /// The backend of the first entry named `name`, if one exists.
    pub fn get<'a>(&'a self, name: &str) -> (r: Option<&'a Backend>)
        ensures
            match r {
                Some(b) => has_key(self@, name@) && *b == key_value(self@, name@),
                None => !has_key(self@, name@),
            },
    {
        let n = self.backends.len();
        let mut i: usize = 0;
        while i < n
            invariant
                n == self@.len(),
                i <= n,
                forall|j: int| 0 <= j < i ==> (#[trigger] self@[j]).0@ != name@,
            decreases n - i,
        {
            if str_eq(self.backends[i].0.as_str(), name) {
                proof {
                    lemma_index_of_key(self@, name@);
                }
                return Some(&self.backends[i].1);
            }
            i += 1;
        }
        proof {
            lemma_index_of_key(self@, name@);
        }
        None
    }

    /// Validates a whole configuration table, fail-fast.
    ///
    /// Succeeds exactly when every entry is a table that passes backend
    /// validation, and then yields one backend per entry, in table order,
    /// under the entry's name. The first failing entry aborts the whole
    /// conversion; the error carries that entry's name beside its field
    /// error, and no partial configuration is produced.
    #[verifier::loop_isolation(false)]
    pub fn try_from(t: &Table) -> (r: Result<BackendsConfig, BackendsConfigError>)
        ensures
            r is Ok <==> (forall|i: int|
                0 <= i < t@.len() ==> entry_value_accepted((#[trigger] t@[i]).1)),
            r matches Ok(c) ==> {
                &&& c@.len() == t@.len()
                &&& forall|i: int|
                    0 <= i < t@.len() ==> {
                        &&& (#[trigger] c@[i]).0@ == t@[i].0@
                        &&& backend_matches(c@[i].1, t@[i].1->Table_0@)
                        &&& c@[i].1.wf()
                    }
            },
            r matches Err(e) ==> {
                let bad = first_bad_index(t@);
                &&& bad < t@.len()
                &&& !entry_value_accepted(t@[bad].1)
                &&& forall|j: int| 0 <= j < bad ==> entry_value_accepted((#[trigger] t@[j]).1)
                &&& e.name@ == t@[bad].0@
                &&& value_error_matches(e.err, t@[bad].1)
            },
    {
        let n = t.len();
        let mut backends: Vec<(String, Backend)> = Vec::new();
        let mut i: usize = 0;
        while i < n
            invariant
                n == t@.len(),
                i <= n,
                backends@.len() == i,
                forall|j: int| 0 <= j < i ==> entry_value_accepted((#[trigger] t@[j]).1),
                forall|j: int|
                    0 <= j < i ==> {
                        &&& (#[trigger] backends@[j]).0@ == t@[j].0@
                        &&& backend_matches(backends@[j].1, t@[j].1->Table_0@)
                        &&& backends@[j].1.wf()
                    },
            decreases n - i,
        {
            let entry = t.entry_at(i);
            match into_table(&entry.1) {
                Ok(et) => {
                    match Backend::try_from(et) {
                        Ok(b) => {
                            backends.push((entry.0.clone(), b));
                        },
                        Err(err) => {
                            proof {
                                pin_first_bad(t@, i as int);
                            }
                            return Err(BackendsConfigError { name: entry.0.clone(), err });
                        },
                    }
                },
                Err(err) => {
                    proof {
                        pin_first_bad(t@, i as int);
                    }
                    return Err(BackendsConfigError { name: entry.0.clone(), err });
                },
            }
            i += 1;
        }
        Ok(BackendsConfig { backends })
    }
}

/// If every entry before `i` passes and entry `i` fails, then `i` is the
/// first failing index.
proof fn pin_first_bad(s: Seq<(String, Value)>, i: int)
    requires
        0 <= i < s.len(),
        !entry_value_accepted(s[i].1),
        forall|j: int| 0 <= j < i ==> entry_value_accepted((#[trigger] s[j]).1),
    ensures
        first_bad_index(s) == i,
{
    lemma_first_bad_index(s);
    let bad = first_bad_index(s);
    if bad > i {
        assert(entry_value_accepted(s[i].1));
    }
    if bad < i {
        assert(entry_value_accepted(s[bad].1));
    }
}

} // verus!
