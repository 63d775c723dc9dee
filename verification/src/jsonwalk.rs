//! Structured walk over the manifest's JSON snapshot, looking for a
//! specific generator name.  The JSON tree is opaque to the verifier;
//! each step goes through a small trusted wrapper and the walk itself is
//! verified glue over plain values.

use vstd::prelude::*;

use crate::tables::generator_fingerprint;
use crate::text::lower_chars;

verus! {

/// A parsed JSON document, produced and read only by the outside JSON
/// library.
#[verifier::external_type_specification]
#[verifier::external_body]
pub struct ExJsonValue(serde_json::Value);

/// Relies on serde_json::from_str: parses a JSON document; an error
/// becomes `None`.
#[verifier::external_body]
pub(crate) fn json_parse(s: &str) -> Option<serde_json::Value> {
    serde_json::from_str::<serde_json::Value>(s).ok()
}

/// Relies on serde_json::Value's Display: the compact serialized text of
/// a JSON document.
#[verifier::external_body]
pub(crate) fn json_to_text(v: &serde_json::Value) -> String {
    v.to_string()
}

/// Relies on serde_json::Value::get: the value under a key of a JSON
/// object, `None` for other shapes or a missing key.
#[verifier::external_body]
fn json_get<'a>(v: &'a serde_json::Value, key: &str) -> Option<&'a serde_json::Value> {
    v.get(key)
}

/// Relies on serde_json::Map::values: the values of a JSON object, in the
/// library's iteration order; `None` when the value is not an object.
/// Callers must not depend on which entry comes first.
#[verifier::external_body]
fn json_object_values(v: &serde_json::Value) -> Option<Vec<serde_json::Value>> {
    v.as_object().map(|m| m.values().cloned().collect())
}

/// Relies on serde_json::Value::as_array: the elements of a JSON array,
/// `None` for other shapes.
#[verifier::external_body]
fn json_as_array(v: &serde_json::Value) -> Option<Vec<serde_json::Value>> {
    v.as_array().cloned()
}

/// Relies on serde_json::Value::as_str: the text of a JSON string value,
/// `None` for other shapes.
#[verifier::external_body]
fn json_as_str(v: &serde_json::Value) -> Option<String> {
    v.as_str().map(|s| s.to_string())
}

/// A more specific generator name pulled out of the manifest mapping of a
/// JSON snapshot: for each sub-manifest, an explicit claim-generator
/// string is preferred; otherwise the first recorded software agent that
/// matches the fingerprint table is taken.  When several sub-manifests
/// carry generator information, which one wins follows the JSON
/// library's iteration order and is not pinned down.
pub fn extract_generator_from_json(v: &serde_json::Value) -> Option<String> {
    let manifests = match json_get(v, "manifests") {
        Some(m) => m,
        None => {
            return None;
        },
    };
    let entries = match json_object_values(manifests) {
        Some(e) => e,
        None => {
            return None;
        },
    };
    let mut i: usize = 0;
    while i < entries.len()
        decreases entries.len() - i,
    {
        let entry = &entries[i];
        if let Some(cg) = json_get(entry, "claim_generator") {
            if let Some(s) = json_as_str(cg) {
                return Some(s);
            }
        }
        if let Some(asserts) = json_get(entry, "assertions") {
            if let Some(arr) = json_as_array(asserts) {
                let mut j: usize = 0;
                while j < arr.len()
                    decreases arr.len() - j,
                {
                    if let Some(data) = json_get(&arr[j], "data") {
                        if let Some(acts) = json_get(data, "actions") {
                            if let Some(action_arr) = json_as_array(acts) {
                                let mut k: usize = 0;
                                while k < action_arr.len()
                                    decreases action_arr.len() - k,
                                {
                                    if let Some(agent) = json_get(&action_arr[k], "softwareAgent") {
                                        if let Some(s) = json_as_str(agent) {
                                            let low = lower_chars(s.as_str());
                                            if generator_fingerprint(&low).is_some() {
                                                return Some(s);
                                            }
                                        }
                                    }
                                    k = k + 1;
                                }
                            }
                        }
                    }
                    j = j + 1;
                }
            }
        }
        i = i + 1;
    }
    None
}

} // verus!
