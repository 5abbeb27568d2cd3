use vstd::prelude::*;

verus! {

/// The four serialization backends, one of which every resource name
/// selects.
#[derive(Clone, Copy, Debug, PartialEq, Eq, Structural)]
pub enum Backend {
    Yaml,
    Json,
    Sqlite,
    Csv,
}

/// `s` ends with the characters of `suffix`.
pub open spec fn has_suffix(s: Seq<char>, suffix: Seq<char>) -> bool {
    suffix.len() <= s.len() && s.subrange(s.len() - suffix.len(), s.len() as int) == suffix
}

/// A resource name carries one of the recognized suffixes.
pub open spec fn suffix_known(name: Seq<char>) -> bool {
    ||| has_suffix(name, ".yml"@)
    ||| has_suffix(name, ".json"@)
    ||| has_suffix(name, ".db"@)
    ||| has_suffix(name, ".sqlite"@)
    ||| has_suffix(name, ".csv"@)
}

/// The backend a resource name selects: by suffix, falling back to
/// YAML when no suffix matches.
pub open spec fn backend_of(name: Seq<char>) -> Backend {
    if has_suffix(name, ".yml"@) {
        Backend::Yaml
    } else if has_suffix(name, ".json"@) {
        Backend::Json
    } else if has_suffix(name, ".db"@) || has_suffix(name, ".sqlite"@) {
        Backend::Sqlite
    } else if has_suffix(name, ".csv"@) {
        Backend::Csv
    } else {
        Backend::Yaml
    }
}

/// Relies on str::ends_with: true exactly when the string ends with
/// the given suffix.
#[verifier::external_body]
fn str_ends_with(s: &str, suffix: &str) -> (r: bool)
    ensures
        r == has_suffix(s@, suffix@),
{
    s.ends_with(suffix)
}

/// Picks the backend for a resource name. The second component reports
/// that no suffix matched and the YAML fallback was taken.
pub fn create_serializer(fname: &str) -> (r: (Backend, bool))
    ensures
        r.0 == backend_of(fname@),
        r.1 == !suffix_known(fname@),
{
    if str_ends_with(fname, ".yml") {
        (Backend::Yaml, false)
    } else if str_ends_with(fname, ".json") {
        (Backend::Json, false)
    } else if str_ends_with(fname, ".db") || str_ends_with(fname, ".sqlite") {
        (Backend::Sqlite, false)
    } else if str_ends_with(fname, ".csv") {
        (Backend::Csv, false)
    } else {
        (Backend::Yaml, true)
    }
}

} // verus!
