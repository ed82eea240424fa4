//! Answering an inline query.

use vstd::prelude::*;

use std::sync::Arc;

use crate::RequestError;
use crate::bot::Bot;
use crate::json::{JsonModel, JsonValue, docs_model, docs_to_json, push_field};
use crate::jsontext::{render, spec_render};
use crate::requests::{Payload, PayloadModel, Request, decode_bool_ok, decode_bool_response};
use crate::types::InlineQueryResult;

verus! {

/// Sends answers to an inline query; no more than 50 results per query are
/// allowed. The service acknowledges with a boolean.
#[derive(Debug)]
pub struct AnswerInlineQuery {
    pub bot: Arc<Bot>,
    pub inline_query_id: String,
    pub results: Vec<InlineQueryResult>,
    pub cache_time: Option<i32>,
    pub is_personal: Option<bool>,
    pub next_offset: Option<String>,
    pub switch_pm_text: Option<String>,
    pub switch_pm_parameter: Option<String>,
}

impl AnswerInlineQuery {
    pub open spec fn spec_fields(self) -> Seq<(Seq<char>, JsonModel)> {
        let s0 = Seq::empty().push(("inline_query_id"@, JsonModel::Str(self.inline_query_id@)))
            .push(("results"@, JsonModel::Arr(docs_model(self.results@))));
        let s1 = match self.cache_time {
            Some(n) => s0.push(("cache_time"@, JsonModel::Int(n as int))),
            None => s0,
        };
        let s2 = match self.is_personal {
            Some(b) => s1.push(("is_personal"@, JsonModel::Bool(b))),
            None => s1,
        };
        let s3 = match self.next_offset {
            Some(o) => s2.push(("next_offset"@, JsonModel::Str(o@))),
            None => s2,
        };
        let s4 = match self.switch_pm_text {
            Some(t) => s3.push(("switch_pm_text"@, JsonModel::Str(t@))),
            None => s3,
        };
        match self.switch_pm_parameter {
            Some(p) => s4.push(("switch_pm_parameter"@, JsonModel::Str(p@))),
            None => s4,
        }
    }

    pub open spec fn spec_body(self) -> JsonModel {
        JsonModel::Obj(self.spec_fields())
    }

    pub fn body_json(&self) -> (r: JsonValue)
        ensures
            r@ == self.spec_body(),
    {
        let mut fields: Vec<(String, JsonValue)> = Vec::new();
        push_field(&mut fields, "inline_query_id", JsonValue::Str(self.inline_query_id.clone()));
        push_field(&mut fields, "results", docs_to_json(&self.results));
        if let Some(n) = &self.cache_time {
            push_field(&mut fields, "cache_time", JsonValue::Int(*n as i64));
        }
        if let Some(b) = &self.is_personal {
            push_field(&mut fields, "is_personal", JsonValue::Bool(*b));
        }
        if let Some(o) = &self.next_offset {
            push_field(&mut fields, "next_offset", JsonValue::Str(o.clone()));
        }
        if let Some(t) = &self.switch_pm_text {
            push_field(&mut fields, "switch_pm_text", JsonValue::Str(t.clone()));
        }
        if let Some(p) = &self.switch_pm_parameter {
            push_field(&mut fields, "switch_pm_parameter", JsonValue::Str(p.clone()));
        }
        let r = JsonValue::Obj(fields);
        proof {
            assert(r@->Obj_0 =~= self.spec_fields());
        }
        r
    }

    pub fn new(bot: Arc<Bot>, inline_query_id: String, results: Vec<InlineQueryResult>) -> (r:
        Self)
        ensures
            r.bot == bot,
            r.inline_query_id == inline_query_id,
            r.results == results,
            r.cache_time is None,
            r.is_personal is None,
            r.next_offset is None,
            r.switch_pm_text is None,
            r.switch_pm_parameter is None,
    {
        AnswerInlineQuery {
            bot,
            inline_query_id,
            results,
            cache_time: None,
            is_personal: None,
            next_offset: None,
            switch_pm_text: None,
            switch_pm_parameter: None,
        }
    }

    /// Unique identifier for the answered query.
    pub fn inline_query_id(self, value: String) -> (r: Self)
        ensures
            r == (AnswerInlineQuery { inline_query_id: value, ..self }),
    {
        AnswerInlineQuery { inline_query_id: value, ..self }
    }

    /// The results to show for the query.
    pub fn results(self, value: Vec<InlineQueryResult>) -> (r: Self)
        ensures
            r == (AnswerInlineQuery { results: value, ..self }),
    {
        AnswerInlineQuery { results: value, ..self }
    }

    /// The maximum amount of time in seconds that the result of the inline
    /// query may be cached on the server.
    pub fn cache_time(self, value: i32) -> (r: Self)
        ensures
            r == (AnswerInlineQuery { cache_time: Some(value), ..self }),
    {
        AnswerInlineQuery { cache_time: Some(value), ..self }
    }

    /// Pass `true` if results may be cached on the server side only for
    /// the user that sent the query.
    pub fn is_personal(self, value: bool) -> (r: Self)
        ensures
            r == (AnswerInlineQuery { is_personal: Some(value), ..self }),
    {
        AnswerInlineQuery { is_personal: Some(value), ..self }
    }

    /// The offset a client should send in the next query with the same
    /// text to receive more results.
    pub fn next_offset(self, value: String) -> (r: Self)
        ensures
            r == (AnswerInlineQuery { next_offset: Some(value), ..self }),
    {
        AnswerInlineQuery { next_offset: Some(value), ..self }
    }

    /// Text of a button shown with the results that switches the user to a
    /// private chat with the bot.
    pub fn switch_pm_text(self, value: String) -> (r: Self)
        ensures
            r == (AnswerInlineQuery { switch_pm_text: Some(value), ..self }),
    {
        AnswerInlineQuery { switch_pm_text: Some(value), ..self }
    }

    /// Deep-linking parameter for the `/start` message sent to the bot
    /// when the user presses the switch button.
    pub fn switch_pm_parameter(self, value: String) -> (r: Self)
        ensures
            r == (AnswerInlineQuery { switch_pm_parameter: Some(value), ..self }),
    {
        AnswerInlineQuery { switch_pm_parameter: Some(value), ..self }
    }
}

impl Request for AnswerInlineQuery {
    type Output = bool;

    open spec fn spec_method(&self) -> Seq<char> {
        "answerInlineQuery"@
    }

    open spec fn spec_payload(&self) -> PayloadModel {
        PayloadModel::Json(spec_render(self.spec_body()))
    }

    open spec fn decode_ok(&self, body: Seq<char>, r: Result<bool, RequestError>) -> bool {
        decode_bool_ok(body, r)
    }

    fn method_name(&self) -> (m: &'static str) {
        "answerInlineQuery"
    }

    fn payload(&self) -> (p: Payload) {
        let body = self.body_json();
        Payload::Json(render(&body))
    }

    fn decode_response(&self, body: &str) -> (r: Result<bool, RequestError>) {
        decode_bool_response(body)
    }
}

} // verus!
