//! Trusted boundary to `serde_json`: the opaque JSON document type, names
//! for what the envelope reads extract from a line, and the wrappers that
//! apply them. Every name is a function of the line's text alone, so the
//! codec's contracts can speak about what a given line decodes to. The
//! worker's `result` payload is carried through the core as an opaque
//! `serde_json::Value`; the core never inspects it beyond the members read
//! here.

use vstd::prelude::*;

verus! {

#[verifier::external_type_specification]
#[verifier::external_body]
pub struct ExValue(serde_json::Value);

/// The envelope tag of a line: the text of the `event` member, when the
/// line is one JSON document with a string member under that key; nothing
/// otherwise.
pub uninterp spec fn envelope_tag(line: Seq<char>) -> Option<Seq<char>>;

/// A string-typed optional member of a line's envelope: nothing when the
/// line is not one JSON document or the member is present with another kind
/// (the line then does not fit the envelope shape); otherwise the member's
/// text, an absent and a null member both reading as absent.
pub uninterp spec fn envelope_text_field(line: Seq<char>, key: Seq<char>) -> Option<
    Option<Seq<char>>,
>;

/// A number-typed optional member of a line's envelope, read as the
/// number's decimal text; shape as for `envelope_text_field`.
pub uninterp spec fn envelope_number_field(line: Seq<char>, key: Seq<char>) -> Option<
    Option<Seq<char>>,
>;

/// Whether a line's envelope carries a `data` member that is not null. The
/// member's value itself is an opaque payload and gets no name.
pub uninterp spec fn envelope_has_data(line: Seq<char>) -> bool;

/// Relies on `serde_json::from_str::<Value>` and `Value::{get, as_str}`:
/// the envelope tag of the line. The result depends on the line alone.
#[verifier::external_body]
pub(crate) fn read_tag(line: &str) -> (r: Option<String>)
    ensures
        (r is Some) == (envelope_tag(line@) is Some),
        r matches Some(t) ==> Some(t@) == envelope_tag(line@),
{
    let v: serde_json::Value = match serde_json::from_str(line) {
        Ok(v) => v,
        Err(_) => return None,
    };
    match v.get("event") {
        Some(t) => t.as_str().map(|s| s.to_owned()),
        None => None,
    }
}

/// Relies on `serde_json::from_str::<Value>` and `Value::{get, is_null,
/// as_str}`: a string-typed optional member of the line's envelope. The
/// result depends on the line and the key alone.
#[verifier::external_body]
pub(crate) fn read_text_field(line: &str, key: &str) -> (r: Option<Option<String>>)
    ensures
        match r {
            None => envelope_text_field(line@, key@) is None,
            Some(None) => envelope_text_field(line@, key@) == Some(Option::<Seq<char>>::None),
            Some(Some(t)) => envelope_text_field(line@, key@) == Some(Some(t@)),
        },
{
    let v: serde_json::Value = match serde_json::from_str(line) {
        Ok(v) => v,
        Err(_) => return None,
    };
    match v.get(key) {
        None => Some(None),
        Some(f) if f.is_null() => Some(None),
        Some(f) => match f.as_str() {
            Some(s) => Some(Some(s.to_owned())),
            None => None,
        },
    }
}

/// Relies on `serde_json::from_str::<Value>`, `Value::{get, is_null,
/// is_number}` and `Value`'s `Display` (the compact JSON text; for a number,
/// its decimal text): a number-typed optional member of the line's
/// envelope. The result depends on the line and the key alone.
#[verifier::external_body]
pub(crate) fn read_number_field(line: &str, key: &str) -> (r: Option<Option<String>>)
    ensures
        match r {
            None => envelope_number_field(line@, key@) is None,
            Some(None) => envelope_number_field(line@, key@) == Some(Option::<Seq<char>>::None),
            Some(Some(t)) => envelope_number_field(line@, key@) == Some(Some(t@)),
        },
{
    let v: serde_json::Value = match serde_json::from_str(line) {
        Ok(v) => v,
        Err(_) => return None,
    };
    match v.get(key) {
        None => Some(None),
        Some(f) if f.is_null() => Some(None),
        Some(f) if f.is_number() => Some(Some(f.to_string())),
        Some(_) => None,
    }
}

/// Relies on `serde_json::from_str::<Value>`, `Value::{get, is_null}` and
/// `Value::clone`: the `data` member of the line's envelope when present
/// and not null. Whether it is present depends on the line alone; the
/// payload itself is opaque.
#[verifier::external_body]
pub(crate) fn read_data(line: &str) -> (r: Option<serde_json::Value>)
    ensures
        (r is Some) == envelope_has_data(line@),
{
    let v: serde_json::Value = match serde_json::from_str(line) {
        Ok(v) => v,
        Err(_) => return None,
    };
    match v.get("data") {
        Some(f) if !f.is_null() => Some(f.clone()),
        _ => None,
    }
}

} // verus!
