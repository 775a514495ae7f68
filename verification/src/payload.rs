//! Extraction of the recognised numeric fields from a structured document
//! payload. The document grammar itself is handled by an outside parser; the
//! library sees only the three optional fields it routes on.

use vstd::prelude::*;

verus! {

/// The optional numeric fields recognised in a structured payload: the
/// correlation key `id` and the routing markers `_to` and `_from`.
#[derive(Debug, PartialEq, Eq, Clone, Copy)]
pub struct CommandFields {
    pub id: Option<u64>,
    pub to: Option<u64>,
    pub from: Option<u64>,
}

/// The fields extracted from a byte payload: `None` when the bytes are not a
/// valid structured document, otherwise the three optional top-level fields.
/// The extraction is a pure function of the bytes.
pub uninterp spec fn json_fields(bytes: Seq<u8>) -> Option<CommandFields>;

/// Relies on serde_json::from_slice, Value::get and Value::as_u64: the
/// result is a function of the input bytes alone; `None` exactly when the
/// bytes do not parse as a document.
#[verifier::external_body]
pub(crate) fn parse_fields(payload: &[u8]) -> (r: Option<CommandFields>)
    ensures
        r == json_fields(payload@),
{
    let v: serde_json::Value = match serde_json::from_slice(payload) {
        Ok(v) => v,
        Err(_) => return None,
    };
    let id = match v.get("id") { Some(x) => x.as_u64(), None => None };
    let to = match v.get("_to") { Some(x) => x.as_u64(), None => None };
    let from = match v.get("_from") { Some(x) => x.as_u64(), None => None };
    Some(CommandFields { id, to, from })
}

} // verus!
