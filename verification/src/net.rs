//! Decoding the wire envelope that every response arrives in.
//!
//! The service wraps each response as
//! `{"ok": bool, "result": ..., "description": ..., "error_code": ...,
//! "parameters": {"retry_after": ...}}`. A true `ok` carries a usable
//! `result`; a false `ok` carries the failure's description, code and retry
//! hint. Anything else is a shape violation and is reported as such, never
//! smoothed over.

use vstd::prelude::*;

use crate::RequestError;
use crate::RequestErrorModel;
use crate::json::{JsonModel, JsonValue, obj_lookup};
use crate::jsontext::{parse_json, parsed_doc};

verus! {

/// The failure description in a failure envelope; empty when the service
/// sent none.
pub open spec fn failure_description(fields: Seq<(Seq<char>, JsonModel)>) -> Seq<char> {
    match obj_lookup(fields, "description"@) {
        Some(JsonModel::Str(s)) => s,
        _ => Seq::empty(),
    }
}

/// The numeric error code in a failure envelope, when one was sent.
pub open spec fn failure_code(fields: Seq<(Seq<char>, JsonModel)>) -> Option<int> {
    match obj_lookup(fields, "error_code"@) {
        Some(JsonModel::Int(i)) => Some(i),
        _ => None,
    }
}

/// The retry hint under `parameters.retry_after`, when one was sent.
pub open spec fn failure_retry_after(fields: Seq<(Seq<char>, JsonModel)>) -> Option<int> {
    match obj_lookup(fields, "parameters"@) {
        Some(JsonModel::Obj(p)) => match obj_lookup(p, "retry_after"@) {
            Some(JsonModel::Int(i)) => Some(i),
            _ => None,
        },
        _ => None,
    }
}

/// What decoding an envelope document yields: the `result` payload of a
/// success, the structured failure of a refusal, or a shape violation.
pub open spec fn envelope_outcome(m: JsonModel) -> Result<JsonModel, RequestErrorModel> {
    match m {
        JsonModel::Obj(fields) => match obj_lookup(fields, "ok"@) {
            Some(JsonModel::Bool(b)) => if b {
                match obj_lookup(fields, "result"@) {
                    Some(payload) => Ok(payload),
                    None => Err(RequestErrorModel::Shape(("success envelope carries no result")@)),
                }
            } else {
                Err(RequestErrorModel::Api {
                    description: failure_description(fields),
                    error_code: failure_code(fields),
                    retry_after: failure_retry_after(fields),
                })
            },
            _ => Err(RequestErrorModel::Shape(("envelope carries no boolean ok field")@)),
        },
        _ => Err(RequestErrorModel::Shape(("envelope is not an object")@)),
    }
}

/// Decodes an envelope document.
pub fn decode_envelope(v: &JsonValue) -> (r: Result<JsonValue, RequestError>)
    ensures
        match r {
            Ok(payload) => envelope_outcome(v@) == Ok::<JsonModel, RequestErrorModel>(payload@),
            Err(e) => envelope_outcome(v@) == Err::<JsonModel, RequestErrorModel>(e@),
        },
{
    let fields_present = match v {
        JsonValue::Obj(_) => true,
        _ => false,
    };
    if !fields_present {
        return Err(RequestError::Shape("envelope is not an object".to_owned()));
    }
    let ok_flag = match v.get("ok") {
        Some(flag) => match flag {
            JsonValue::Bool(b) => Some(*b),
            _ => None,
        },
        None => None,
    };
    match ok_flag {
        None => Err(RequestError::Shape("envelope carries no boolean ok field".to_owned())),
        Some(true) => match v.get("result") {
            Some(payload) => Ok(payload.deep_copy()),
            None => Err(RequestError::Shape("success envelope carries no result".to_owned())),
        },
        Some(false) => {
            let description = match v.get("description") {
                Some(d) => match d {
                    JsonValue::Str(s) => s.clone(),
                    _ => String::new(),
                },
                None => String::new(),
            };
            let error_code = match v.get("error_code") {
                Some(c) => match c {
                    JsonValue::Int(i) => Some(*i),
                    _ => None,
                },
                None => None,
            };
            let retry_after = match v.get("parameters") {
                Some(p) => match p.get("retry_after") {
                    Some(r) => match r {
                        JsonValue::Int(i) => Some(*i),
                        _ => None,
                    },
                    None => None,
                },
                None => None,
            };
            Err(RequestError::Api { description, error_code, retry_after })
        },
    }
}

/// Decodes a response body: parses it, then decodes the envelope. A body
/// that is not JSON at all is a shape violation.
pub fn decode_envelope_text(body: &str) -> (r: Result<JsonValue, RequestError>)
    ensures
        match parsed_doc(body@) {
            Some(m) => match r {
                Ok(payload) => envelope_outcome(m) == Ok::<JsonModel, RequestErrorModel>(payload@),
                Err(e) => envelope_outcome(m) == Err::<JsonModel, RequestErrorModel>(e@),
            },
            None => r matches Err(e) && e@ == RequestErrorModel::Shape(
                ("response body is not JSON")@,
            ),
        },
{
    match parse_json(body) {
        Some(doc) => decode_envelope(&doc),
        None => Err(RequestError::Shape("response body is not JSON".to_owned())),
    }
}

} // verus!
