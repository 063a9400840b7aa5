//! Reading a `package.json` manifest.

use vstd::prelude::*;

verus! {

/// Whether the JSON text `text` parses, and if so, whether the member
/// `section` of its top level is a value with a member named `key`.
pub uninterp spec fn json_member_listed(text: Seq<u8>, section: Seq<char>, key: Seq<char>) -> Option<bool>;

/// Relies on serde_json::from_slice into a serde_json::Value, and on
/// serde_json::Value::get: `None` when the text is not JSON, else whether
/// `value[section][key]` exists.
#[verifier::external_body]
fn member_listed(text: &[u8], section: &str, key: &str) -> (r: Option<bool>)
    ensures
        r == json_member_listed(text@, section@, key@),
{
    match serde_json::from_slice::<serde_json::Value>(text) {
        Ok(v) => Some(v.get(section).and_then(|s| s.get(key)).is_some()),
        Err(_) => None,
    }
}

/// The manifest `text` lists `tool` among its dependencies.
pub open spec fn lists_dependency(text: Seq<u8>, tool: Seq<char>) -> bool {
    json_member_listed(text, "dependencies"@, tool) == Some(true)
}

/// Whether the manifest `text` lists `tool` under `dependencies`; text that
/// is not JSON lists nothing.
pub fn manifest_lists_dependency(text: &Vec<u8>, tool: &str) -> (r: bool)
    ensures
        r == lists_dependency(text@, tool@),
{
    dependency_verdict(member_listed(text.as_slice(), "dependencies", tool))
}

/// Reads the answer of a manifest lookup: only a parsed manifest that holds
/// the entry counts.
pub fn dependency_verdict(listed: Option<bool>) -> (r: bool)
    ensures
        r == (listed == Some(true)),
{
    match listed {
        Some(b) => b,
        None => false,
    }
}

} // verus!
