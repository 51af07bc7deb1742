//! Reading the server version out of the client's `version -o json` report.
use vstd::prelude::*;

verus! {

/// The text of the JSON string at member `inner` of member `outer` of the
/// JSON document `doc`; `None` when `doc` is not JSON or holds no string there.
pub uninterp spec fn json_text_at(doc: Seq<u8>, outer: Seq<char>, inner: Seq<char>) -> Option<
    Seq<char>,
>;

/// The view of an optional text.
pub open spec fn opt_text(t: Option<String>) -> Option<Seq<char>> {
    match t {
        Some(s) => Some(s@),
        None => None,
    }
}

/// Relies on serde_json: `from_slice` parses `doc` into a `Value`, `Value::get`
/// looks up an object member by key (`None` for a missing key or a value that
/// is not an object), and `Value::as_str` gives the text of a JSON string.
/// The result depends on the three arguments alone.
#[verifier::external_body]
fn json_string_at(doc: &[u8], outer: &str, inner: &str) -> (r: Option<String>)
    ensures
        opt_text(r) == json_text_at(doc@, outer@, inner@),
{
    serde_json::from_slice::<serde_json::Value>(doc).ok()?.get(outer)?.get(inner)?.as_str().map(
        String::from,
    )
}

/// The `serverVersion.gitVersion` text of a version report, or `None` when
/// the report is not JSON or has no such string.
pub fn reported_server_version(stdout: &[u8]) -> (r: Option<String>)
    ensures
        opt_text(r) == json_text_at(stdout@, "serverVersion"@, "gitVersion"@),
{
    json_string_at(stdout, "serverVersion", "gitVersion")
}

} // verus!
