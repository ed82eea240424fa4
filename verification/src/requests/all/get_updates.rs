//! Polling for inbound events with long polling.

use vstd::prelude::*;

use std::sync::Arc;

use crate::RequestError;
use crate::RequestErrorModel;
use crate::bot::Bot;
use crate::json::{JsonModel, JsonValue, docs_model, docs_to_json, push_field};
use crate::jsontext::{parsed_doc, render, spec_render};
use crate::net::{decode_envelope_text, envelope_outcome};
use crate::requests::{Payload, PayloadModel, Request};
use crate::types::AllowedUpdate;
use crate::types::update::{Update, decode_update_batch, outcome_matches};

verus! {

/// Receives incoming events using long polling. To avoid duplicate events,
/// recalculate `offset` after each server response.
///
/// The batch is decoded element by element rather than as one typed list,
/// so one unrecognized event never blocks delivery of the recognized
/// events beside it; each element's outcome is reported on its own.
#[derive(Debug)]
pub struct GetUpdates {
    pub bot: Arc<Bot>,
    pub offset: Option<i64>,
    pub limit: Option<u8>,
    pub timeout: Option<u32>,
    pub allowed_updates: Option<Vec<AllowedUpdate>>,
}

/// What the decoded outcome of a poll must be for a given response body:
/// a same-length, same-order sequence of per-element outcomes for an array
/// `result`, the envelope's failure for a refusal, and a shape violation
/// for anything else — never an empty batch in result's place.
pub open spec fn decode_updates_ok(
    body: Seq<char>,
    r: Result<Vec<Result<Update, (JsonValue, String)>>, RequestError>,
) -> bool {
    match parsed_doc(body) {
        Some(m) => match envelope_outcome(m) {
            Ok(payload) => match payload {
                JsonModel::Arr(elems) => r matches Ok(out) && out@.len() == elems.len() && (forall|
                    i: int,
                |
                    0 <= i < elems.len() ==> outcome_matches(#[trigger] out@[i], elems[i])),
                _ => r matches Err(err) && err@ == RequestErrorModel::Shape(
                    ("poll result is not an array")@,
                ),
            },
            Err(e) => r matches Err(err) && err@ == e,
        },
        None => r matches Err(err) && err@ == RequestErrorModel::Shape(
            ("response body is not JSON")@,
        ),
    }
}

impl GetUpdates {
    pub open spec fn spec_fields(self) -> Seq<(Seq<char>, JsonModel)> {
        let s0 = match self.offset {
            Some(n) => Seq::empty().push(("offset"@, JsonModel::Int(n as int))),
            None => Seq::empty(),
        };
        let s1 = match self.limit {
            Some(n) => s0.push(("limit"@, JsonModel::Int(n as int))),
            None => s0,
        };
        let s2 = match self.timeout {
            Some(n) => s1.push(("timeout"@, JsonModel::Int(n as int))),
            None => s1,
        };
        match self.allowed_updates {
            Some(u) => s2.push(("allowed_updates"@, JsonModel::Arr(docs_model(u@)))),
            None => s2,
        }
    }

    pub open spec fn spec_body(self) -> JsonModel {
        JsonModel::Obj(self.spec_fields())
    }

    pub fn body_json(&self) -> (r: JsonValue)
        ensures
            r@ == self.spec_body(),
    {
        let mut fields: Vec<(String, JsonValue)> = Vec::new();
        if let Some(n) = &self.offset {
            push_field(&mut fields, "offset", JsonValue::Int(*n));
        }
        if let Some(n) = &self.limit {
            push_field(&mut fields, "limit", JsonValue::Int(*n as i64));
        }
        if let Some(n) = &self.timeout {
            push_field(&mut fields, "timeout", JsonValue::Int(*n as i64));
        }
        if let Some(u) = &self.allowed_updates {
            push_field(&mut fields, "allowed_updates", docs_to_json(u));
        }
        let r = JsonValue::Obj(fields);
        proof {
            assert(r@->Obj_0 =~= self.spec_fields());
        }
        r
    }

    pub fn new(bot: Arc<Bot>) -> (r: Self)
        ensures
            r.bot == bot,
            r.offset is None,
            r.limit is None,
            r.timeout is None,
            r.allowed_updates is None,
    {
        GetUpdates { bot, offset: None, limit: None, timeout: None, allowed_updates: None }
    }

    /// Identifier of the first event to be returned; must be one greater
    /// than the highest identifier among previously received events. A
    /// negative offset counts from the end of the queue.
    pub fn offset(self, value: i64) -> (r: Self)
        ensures
            r == (GetUpdates { offset: Some(value), ..self }),
    {
        GetUpdates { offset: Some(value), ..self }
    }

    /// Limits the number of events to be retrieved; values between 1 and
    /// 100 are accepted, and the default is 100.
    pub fn limit(self, value: u8) -> (r: Self)
        ensures
            r == (GetUpdates { limit: Some(value), ..self }),
    {
        GetUpdates { limit: Some(value), ..self }
    }

    /// Timeout in seconds for long polling; 0 means short polling, which
    /// should be used for testing purposes only.
    pub fn timeout(self, value: u32) -> (r: Self)
        ensures
            r == (GetUpdates { timeout: Some(value), ..self }),
    {
        GetUpdates { timeout: Some(value), ..self }
    }

    /// The kinds of event to receive; an empty list asks for every kind.
    pub fn allowed_updates(self, value: Vec<AllowedUpdate>) -> (r: Self)
        ensures
            r == (GetUpdates { allowed_updates: Some(value), ..self }),
    {
        GetUpdates { allowed_updates: Some(value), ..self }
    }
}

impl Request for GetUpdates {
    type Output = Vec<Result<Update, (JsonValue, String)>>;

    open spec fn spec_method(&self) -> Seq<char> {
        "getUpdates"@
    }

    open spec fn spec_payload(&self) -> PayloadModel {
        PayloadModel::Json(spec_render(self.spec_body()))
    }

    open spec fn decode_ok(
        &self,
        body: Seq<char>,
        r: Result<Vec<Result<Update, (JsonValue, String)>>, RequestError>,
    ) -> bool {
        decode_updates_ok(body, r)
    }

    fn method_name(&self) -> (m: &'static str) {
        "getUpdates"
    }

    fn payload(&self) -> (p: Payload) {
        let body = self.body_json();
        Payload::Json(render(&body))
    }

    fn decode_response(&self, body: &str) -> (r: Result<
        Vec<Result<Update, (JsonValue, String)>>,
        RequestError,
    >) {
        match decode_envelope_text(body) {
            Ok(payload) => decode_update_batch(&payload),
            Err(e) => Err(e),
        }
    }
}

} // verus!
