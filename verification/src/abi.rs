//! The contract interface description: a JSON document that must hold
//! an `abi` member. Parsing and the member lookup are serde_json's
//! work, behind one trusted wrapper; the acceptance rule — reject a
//! document that is not JSON, reject one without the member, hand the
//! member back otherwise — is verified here.

use vstd::prelude::*;

verus! {

#[verifier::external_type_specification]
#[verifier::external_body]
pub struct ExValue(serde_json::Value);

/// Whether a text is a well-formed JSON document, as serde_json's
/// parser decides it; the answer depends on the text alone.
pub uninterp spec fn json_parse_ok(s: Seq<char>) -> bool;

/// Whether the JSON document a text holds has the given top-level
/// member, as serde_json's lookup decides it; the answer depends on
/// the text and the key alone. Meaningful only where `json_parse_ok`
/// holds of the text.
pub uninterp spec fn json_member_present(s: Seq<char>, key: Seq<char>) -> bool;

/// Relies on serde_json::from_str::<Value> and serde_json::Value::get:
/// parses a JSON document and looks a top-level member up. The outer
/// option is the parse (it accepts or rejects a given text the same
/// way every time), the inner one the member.
#[verifier::external_body]
fn parse_json_member(text: &str, key: &str) -> (r: Option<Option<serde_json::Value>>)
    ensures
        r is Some <==> json_parse_ok(text@),
        r matches Some(m) ==> (m is Some <==> json_member_present(text@, key@)),
{
    match serde_json::from_str::<serde_json::Value>(text) {
        Ok(doc) => Some(doc.get(key).cloned()),
        Err(_) => None,
    }
}

/// Why an interface description was rejected. Either failure is fatal
/// at startup.
#[derive(Clone, Copy, PartialEq, Eq, Structural, Debug)]
pub enum AbiError {
    /// The file does not hold a JSON document.
    NotJson,
    /// The document has no `abi` member.
    MissingAbiField,
}

/// Accepts an interface-description document exactly when it is JSON
/// and has an `abi` member, and hands that member back; any other
/// member of the document is ignored.
pub fn extract_abi_value(text: &str) -> (r: Result<serde_json::Value, AbiError>)
    ensures
        r is Ok <==> (json_parse_ok(text@) && json_member_present(text@, "abi"@)),
        r == Err::<serde_json::Value, AbiError>(AbiError::NotJson) <==> (!json_parse_ok(text@)),
        r == Err::<serde_json::Value, AbiError>(AbiError::MissingAbiField) <==> (json_parse_ok(
            text@,
        ) && !json_member_present(text@, "abi"@)),
{
    match parse_json_member(text, "abi") {
        Some(Some(abi)) => Ok(abi),
        Some(None) => Err(AbiError::MissingAbiField),
        None => Err(AbiError::NotJson),
    }
}

} // verus!
