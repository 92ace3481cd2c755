//! The opaque JSON values carried by a test's optional input and output
//! regions.  The library never looks inside them: it only asks whether a
//! region is well-formed JSON and, if so, for its canonical pretty-printed
//! form.

use vstd::prelude::*;

verus! {

/// The canonical pretty-printed form of the JSON value that the text parses
/// to: `Some` exactly when the text is well-formed JSON.
pub uninterp spec fn json_pretty(s: Seq<char>) -> Option<Seq<char>>;

/// The text is well-formed JSON.
pub open spec fn json_ok(s: Seq<char>) -> bool {
    json_pretty(s) is Some
}

/// Relies on `serde_json::from_str::<Value>` and `serde_json::to_string_pretty`:
/// parsing succeeds exactly on well-formed JSON text, pretty-printing a parsed
/// value cannot fail, and the result depends on the text alone.
#[verifier::external_body]
pub fn pretty_json(s: &str) -> (r: Option<String>)
    ensures
        r is Some <==> json_ok(s@),
        r matches Some(t) ==> json_pretty(s@) == Some(t@),
{
    match serde_json::from_str::<serde_json::Value>(s) {
        Ok(v) => serde_json::to_string_pretty(&v).ok(),
        Err(_) => None,
    }
}

} // verus!
