//! Rewriting the two JSON configuration documents with fresh identifiers.
//!
//! The documents are handled by serde_json; this module states what each
//! call does in terms of the document's canonical pretty-printed text,
//! which determines a JSON value exactly, and proves the rewrite against
//! those statements. Three known keys are overwritten; everything else in
//! the document is carried through the opaque value untouched.

use vstd::prelude::*;
use crate::machine::IdentitySet;

verus! {

#[verifier::external_type_specification]
#[verifier::external_body]
pub struct ExJsonValue(serde_json::Value);

#[verifier::external_type_specification]
#[verifier::external_body]
pub struct ExJsonError(serde_json::Error);

/// The canonical pretty-printed text of a JSON value, as
/// serde_json::to_string_pretty renders it.
pub uninterp spec fn json_text(v: serde_json::Value) -> Seq<char>;

/// The canonical text of the value that parsing `s` yields, or `None`
/// when `s` is not valid JSON.
pub uninterp spec fn json_parse_text(s: Seq<char>) -> Option<Seq<char>>;

/// Whether the document with canonical text `s` has an object at its root.
pub uninterp spec fn json_is_object(s: Seq<char>) -> bool;

/// The canonical text after binding `key` to the string `val` at the root
/// of the object document with canonical text `s`; every other key keeps
/// its value.
pub uninterp spec fn json_set_key(s: Seq<char>, key: Seq<char>, val: Seq<char>) -> Seq<char>;

/// Relies on serde_json::from_str::<Value>: whether parsing succeeds, and
/// which value it yields, are functions of the input text alone.
#[verifier::external_body]
fn parse_value(content: &str) -> (r: Result<serde_json::Value, serde_json::Error>)
    ensures
        match r {
            Ok(v) => json_parse_text(content@) == Some(json_text(v)),
            Err(_) => json_parse_text(content@) is None,
        },
{
    serde_json::from_str::<serde_json::Value>(content)
}

/// Relies on serde_json::Value::Object over serde_json::Map::new: the empty
/// object document, whose pretty-printed text is `{}`.
#[verifier::external_body]
fn empty_object() -> (r: serde_json::Value)
    ensures
        json_text(r) == "{}"@,
        json_is_object(json_text(r)),
{
    serde_json::Value::Object(serde_json::Map::new())
}

/// Relies on serde_json::Value::is_object.
pub assume_specification[ serde_json::Value::is_object ](v: &serde_json::Value) -> (r: bool)
    ensures
        r == json_is_object(json_text(*v)),
;

/// Relies on serde_json::Map::insert, reached through
/// serde_json::Value::as_object_mut: on an object document it binds `key`
/// to the string `val` and leaves every other key as it was.
#[verifier::external_body]
fn set_string_key(v: &mut serde_json::Value, key: &str, val: &str)
    requires
        json_is_object(json_text(*old(v))),
    ensures
        json_text(*final(v)) == json_set_key(json_text(*old(v)), key@, val@),
        json_is_object(json_text(*final(v))),
{
    if let Some(obj) = v.as_object_mut() {
        obj.insert(key.to_string(), serde_json::Value::String(val.to_string()));
    }
}

/// Relies on serde_json::to_string_pretty: rendering a Value cannot fail
/// (object keys are strings and the writer is an in-memory buffer), and the
/// result is the value's canonical pretty-printed text.
#[verifier::external_body]
fn render_pretty(v: &serde_json::Value) -> (r: String)
    ensures
        r@ == json_text(*v),
{
    match serde_json::to_string_pretty(v) {
        Ok(s) => s,
        Err(_) => String::new(),
    }
}

/// Why a configuration rewrite was abandoned; nothing has been written when
/// any of these is returned.
#[derive(Clone, Copy, PartialEq, Eq, Structural, Debug)]
pub enum UpdateError {
    /// The storage file exists but does not hold valid JSON.
    StorageParse,
    /// The storage file holds valid JSON whose root is not an object.
    StorageNotObject,
    /// The state file exists but does not hold valid JSON.
    StateParse,
}

/// The canonical text a file's content parses to; an absent file counts as
/// the empty object document.
pub open spec fn doc_of(content: Option<Seq<char>>) -> Option<Seq<char>> {
    match content {
        None => Some("{}"@),
        Some(c) => json_parse_text(c),
    }
}

/// The storage document after the three telemetry keys are overwritten.
pub open spec fn storage_updated(doc: Seq<char>, ids: IdentitySet) -> Seq<char> {
    json_set_key(
        json_set_key(
            json_set_key(doc, "telemetryMachineId"@, ids.machine_id@),
            "telemetryDevDeviceId"@,
            ids.device_id@,
        ),
        "telemetryMacMachineId"@,
        ids.mac_machine_id@,
    )
}

/// The state document after the three identifier keys are overwritten; a
/// state document whose root is not an object is kept as it is.
pub open spec fn state_updated(doc: Seq<char>, ids: IdentitySet) -> Seq<char> {
    if json_is_object(doc) {
        json_set_key(
            json_set_key(json_set_key(doc, "machineId"@, ids.machine_id@), "deviceId"@, ids.device_id@),
            "macMachineId"@,
            ids.mac_machine_id@,
        )
    } else {
        doc
    }
}

/// The view of an optional file content.
pub open spec fn content_view(c: Option<String>) -> Option<Seq<char>> {
    match c {
        Some(s) => Some(s@),
        None => None,
    }
}

/// Computes the new text of both configuration files: the storage document
/// gets the three telemetry-prefixed keys, the state document the three
/// unprefixed ones (only if its root is an object). An absent file starts
/// from an empty document. Nothing is written here; the caller writes the
/// returned texts. The returned flag says whether the state keys were in
/// fact written; a caller should log a skipped state document, since it may
/// mask configuration corruption.
pub fn update_config_files(
    storage_content: &Option<String>,
    state_content: &Option<String>,
    ids: &IdentitySet,
) -> (r: Result<(String, String, bool), UpdateError>)
    ensures
        match r {
            Ok(texts) => {
                &&& doc_of(content_view(*storage_content)) matches Some(sdoc)
                    && json_is_object(sdoc) && texts.0@ == storage_updated(sdoc, *ids)
                &&& doc_of(content_view(*state_content)) matches Some(tdoc) && texts.1@
                    == state_updated(tdoc, *ids) && texts.2 == json_is_object(tdoc)
            },
            Err(UpdateError::StorageParse) => doc_of(content_view(*storage_content)) is None,
            Err(UpdateError::StorageNotObject) => doc_of(content_view(*storage_content))
                matches Some(sdoc) && !json_is_object(sdoc),
            Err(UpdateError::StateParse) => doc_of(content_view(*storage_content))
                matches Some(sdoc) && json_is_object(sdoc) && doc_of(content_view(*state_content)) is None,
        },
{
    let mut storage_doc = match storage_content {
        Some(content) => match parse_value(content.as_str()) {
            Ok(v) => v,
            Err(_) => {
                return Err(UpdateError::StorageParse);
            },
        },
        None => empty_object(),
    };
    if !storage_doc.is_object() {
        return Err(UpdateError::StorageNotObject);
    }
    set_string_key(&mut storage_doc, "telemetryMachineId", ids.machine_id.as_str());
    set_string_key(&mut storage_doc, "telemetryDevDeviceId", ids.device_id.as_str());
    set_string_key(&mut storage_doc, "telemetryMacMachineId", ids.mac_machine_id.as_str());
    let storage_text = render_pretty(&storage_doc);

    let mut state_doc = match state_content {
        Some(content) => match parse_value(content.as_str()) {
            Ok(v) => v,
            Err(_) => {
                return Err(UpdateError::StateParse);
            },
        },
        None => empty_object(),
    };
    let state_is_object = state_doc.is_object();
    if state_is_object {
        set_string_key(&mut state_doc, "machineId", ids.machine_id.as_str());
        set_string_key(&mut state_doc, "deviceId", ids.device_id.as_str());
        set_string_key(&mut state_doc, "macMachineId", ids.mac_machine_id.as_str());
    }
    let state_text = render_pretty(&state_doc);

    Ok((storage_text, state_text, state_is_object))
}

} // verus!
