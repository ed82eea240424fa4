//! Deleting a message.

use vstd::prelude::*;

use std::sync::Arc;

use crate::RequestError;
use crate::bot::Bot;
use crate::json::{JsonModel, JsonValue, push_field};
use crate::jsontext::{render, spec_render};
use crate::requests::{Payload, PayloadModel, Request, decode_bool_ok, decode_bool_response};
use crate::types::{ChatId, chat_id_json};

verus! {

/// Deletes a message, including service messages. The service acknowledges
/// with a boolean.
#[derive(Debug)]
pub struct DeleteMessage {
    pub bot: Arc<Bot>,
    pub chat_id: ChatId,
    pub message_id: i64,
}

impl DeleteMessage {
    pub open spec fn spec_fields(self) -> Seq<(Seq<char>, JsonModel)> {
        Seq::empty().push(("chat_id"@, chat_id_json(self.chat_id@))).push(
            ("message_id"@, JsonModel::Int(self.message_id as int)),
        )
    }

    pub open spec fn spec_body(self) -> JsonModel {
        JsonModel::Obj(self.spec_fields())
    }

    pub fn body_json(&self) -> (r: JsonValue)
        ensures
            r@ == self.spec_body(),
    {
        let mut fields: Vec<(String, JsonValue)> = Vec::new();
        push_field(&mut fields, "chat_id", self.chat_id.to_json());
        push_field(&mut fields, "message_id", JsonValue::Int(self.message_id));
        let r = JsonValue::Obj(fields);
        proof {
            assert(r@->Obj_0 =~= self.spec_fields());
        }
        r
    }

    pub fn new(bot: Arc<Bot>, chat_id: ChatId, message_id: i64) -> (r: Self)
        ensures
            r.bot == bot,
            r.chat_id == chat_id,
            r.message_id == message_id,
    {
        DeleteMessage { bot, chat_id, message_id }
    }

    /// Unique identifier for the target chat or username of the target
    /// channel (in the format `@channelusername`).
    pub fn chat_id(self, value: ChatId) -> (r: Self)
        ensures
            r == (DeleteMessage { chat_id: value, ..self }),
    {
        DeleteMessage { chat_id: value, ..self }
    }

    /// Identifier of the message to delete.
    pub fn message_id(self, value: i64) -> (r: Self)
        ensures
            r == (DeleteMessage { message_id: value, ..self }),
    {
        DeleteMessage { message_id: value, ..self }
    }
}

impl Request for DeleteMessage {
    type Output = bool;

    open spec fn spec_method(&self) -> Seq<char> {
        "deleteMessage"@
    }

    open spec fn spec_payload(&self) -> PayloadModel {
        PayloadModel::Json(spec_render(self.spec_body()))
    }

    open spec fn decode_ok(&self, body: Seq<char>, r: Result<bool, RequestError>) -> bool {
        decode_bool_ok(body, r)
    }

    fn method_name(&self) -> (m: &'static str) {
        "deleteMessage"
    }

    fn payload(&self) -> (p: Payload) {
        let body = self.body_json();
        Payload::Json(render(&body))
    }

    fn decode_response(&self, body: &str) -> (r: Result<bool, RequestError>) {
        decode_bool_response(body)
    }
}

} // verus!
