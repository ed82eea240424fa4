//! Inbound events, and the resilient decoding of an event batch.
//!
//! A poll answers with an array of event objects. The service's schema
//! grows faster than any client's type catalog, so the batch is decoded
//! element by element: a malformed element is reported alongside its raw
//! document and never costs the rest of the batch. Only a `result` that is
//! not an array at all is a shape violation.

use vstd::prelude::*;

use crate::RequestError;
use crate::RequestErrorModel;
use crate::json::{JsonModel, JsonValue, doc_lookup, json_model, json_model_seq,
    lemma_json_model_seq};

verus! {

/// One inbound event: its identifier, and the whole event object for the
/// caller to read further.
#[derive(Debug, PartialEq)]
pub struct Update {
    pub id: i64,
    pub payload: JsonValue,
}

/// An event element is well-formed when it is an object with an integer
/// `id` field.
pub open spec fn update_wf(m: JsonModel) -> bool {
    doc_lookup(m, "id"@) matches Some(JsonModel::Int(_))
}

/// The identifier of a well-formed event element.
pub open spec fn update_id_of(m: JsonModel) -> int {
    match doc_lookup(m, "id"@) {
        Some(JsonModel::Int(i)) => i,
        _ => 0,
    }
}

impl Update {
    /// Decodes one event element, keeping the whole document as the
    /// payload; yields nothing when the element is malformed.
    pub fn try_parse(v: &JsonValue) -> (r: Option<Update>)
        ensures
            match r {
                Some(u) => update_wf(v@) && u.id as int == update_id_of(v@) && u.payload@ == v@,
                None => !update_wf(v@),
            },
    {
        match v.get("id") {
            Some(field) => match field {
                JsonValue::Int(i) => Some(Update { id: *i, payload: v.deep_copy() }),
                _ => None,
            },
            None => None,
        }
    }
}

/// What one slot of a decoded batch must hold for the element it came from:
/// the typed event when the element is well-formed, otherwise the raw
/// element beside a non-empty error description.
pub open spec fn outcome_matches(o: Result<Update, (JsonValue, String)>, m: JsonModel) -> bool {
    if update_wf(m) {
        o matches Ok(u) && u.id as int == update_id_of(m) && u.payload@ == m
    } else {
        o matches Err(pair) && pair.0@ == m && pair.1@.len() > 0
    }
}

/// Decodes a poll's `result` array element by element. The decoded batch
/// has exactly one outcome per element, in the original order; a `result`
/// that is not an array is a shape violation, never an empty batch.
pub fn decode_update_batch(result: &JsonValue) -> (r: Result<
    Vec<Result<Update, (JsonValue, String)>>,
    RequestError,
>)
    ensures
        match r {
            Ok(outcomes) => result@ matches JsonModel::Arr(elems) && outcomes@.len() == elems.len()
                && (forall|i: int|
                0 <= i < elems.len() ==> outcome_matches(#[trigger] outcomes@[i], elems[i])),
            Err(e) => !(result@ matches JsonModel::Arr(_)) && e@ == RequestErrorModel::Shape(
                ("poll result is not an array")@,
            ),
        },
{
    match result {
        JsonValue::Arr(elems) => {
            let ghost gm = json_model_seq(elems@);
            proof {
                lemma_json_model_seq(elems@);
            }
            let mut out: Vec<Result<Update, (JsonValue, String)>> = Vec::new();
            let mut i: usize = 0;
            while i < elems.len()
                invariant
                    i <= elems.len(),
                    *result == JsonValue::Arr(*elems),
                    gm == json_model_seq(elems@),
                    gm.len() == elems@.len(),
                    forall|j: int| 0 <= j < elems@.len() ==> gm[j] == json_model(elems@[j]),
                    out@.len() == i,
                    forall|j: int| 0 <= j < i ==> outcome_matches(#[trigger] out@[j], gm[j]),
                decreases elems.len() - i,
            {
                match Update::try_parse(&elems[i]) {
                    Some(u) => {
                        out.push(Ok(u));
                    },
                    None => {
                        let description = "event element has no integer id field".to_owned();
                        proof {
                            reveal_strlit("event element has no integer id field");
                        }
                        out.push(Err((elems[i].deep_copy(), description)));
                    },
                }
                i = i + 1;
            }
            Ok(out)
        },
        _ => Err(RequestError::Shape("poll result is not an array".to_owned())),
    }
}

} // verus!
