//! Sending a text message.

use vstd::prelude::*;

use std::sync::Arc;

use crate::RequestError;
use crate::bot::Bot;
use crate::json::{JsonModel, JsonValue, push_field, strings_json, strings_to_json};
use crate::jsontext::{render, spec_render};
use crate::requests::{Payload, PayloadModel, Request, decode_doc_ok, decode_doc_response};
use crate::types::{ChatId, ParseMode, ReplyMarkup, chat_id_json, parse_mode_text};

verus! {

/// Sends a text message to a chat. The set optional fields travel in the
/// JSON body in declaration order; unset ones are omitted entirely.
#[derive(Debug)]
pub struct SendMessage {
    pub bot: Arc<Bot>,
    pub chat_id: ChatId,
    pub text: String,
    pub desc: Option<String>,
    pub parse_mode: Option<ParseMode>,
    pub selective: Option<bool>,
    pub disable_web_page_preview: Option<bool>,
    pub disable_notification: Option<bool>,
    pub reply_to_message_id: Option<i64>,
    pub reply_to_message_id_level_2: Option<i64>,
    pub reply_markup: Option<ReplyMarkup>,
    pub unreactive: Option<i32>,
    pub ephemeral: Option<bool>,
    pub users: Option<Vec<String>>,
}

impl SendMessage {
    /// The fields of this request's JSON body, in declaration order, unset
    /// optionals omitted.
    pub open spec fn spec_fields(self) -> Seq<(Seq<char>, JsonModel)> {
        let s0 = Seq::empty().push(("chat_id"@, chat_id_json(self.chat_id@))).push(
            ("text"@, JsonModel::Str(self.text@)),
        );
        let s1 = match self.desc {
            Some(d) => s0.push(("desc"@, JsonModel::Str(d@))),
            None => s0,
        };
        let s2 = match self.parse_mode {
            Some(m) => s1.push(("parse_mode"@, JsonModel::Str(parse_mode_text(m)))),
            None => s1,
        };
        let s3 = match self.selective {
            Some(b) => s2.push(("selective"@, JsonModel::Bool(b))),
            None => s2,
        };
        let s4 = match self.disable_web_page_preview {
            Some(b) => s3.push(("disable_web_page_preview"@, JsonModel::Bool(b))),
            None => s3,
        };
        let s5 = match self.disable_notification {
            Some(b) => s4.push(("disable_notification"@, JsonModel::Bool(b))),
            None => s4,
        };
        let s6 = match self.reply_to_message_id {
            Some(n) => s5.push(("reply_to_message_id"@, JsonModel::Int(n as int))),
            None => s5,
        };
        let s7 = match self.reply_to_message_id_level_2 {
            Some(n) => s6.push(("reply_to_message_id_level_2"@, JsonModel::Int(n as int))),
            None => s6,
        };
        let s8 = match self.reply_markup {
            Some(m) => s7.push(("reply_markup"@, m@)),
            None => s7,
        };
        let s9 = match self.unreactive {
            Some(n) => s8.push(("unreactive"@, JsonModel::Int(n as int))),
            None => s8,
        };
        let s10 = match self.ephemeral {
            Some(b) => s9.push(("ephemeral"@, JsonModel::Bool(b))),
            None => s9,
        };
        match self.users {
            Some(u) => s10.push(("users"@, strings_json(u@))),
            None => s10,
        }
    }

    /// This request's JSON body.
    pub open spec fn spec_body(self) -> JsonModel {
        JsonModel::Obj(self.spec_fields())
    }

    pub fn body_json(&self) -> (r: JsonValue)
        ensures
            r@ == self.spec_body(),
    {
        let mut fields: Vec<(String, JsonValue)> = Vec::new();
        push_field(&mut fields, "chat_id", self.chat_id.to_json());
        push_field(&mut fields, "text", JsonValue::Str(self.text.clone()));
        if let Some(d) = &self.desc {
            push_field(&mut fields, "desc", JsonValue::Str(d.clone()));
        }
        if let Some(m) = &self.parse_mode {
            push_field(&mut fields, "parse_mode", m.to_json());
        }
        if let Some(b) = &self.selective {
            push_field(&mut fields, "selective", JsonValue::Bool(*b));
        }
        if let Some(b) = &self.disable_web_page_preview {
            push_field(&mut fields, "disable_web_page_preview", JsonValue::Bool(*b));
        }
        if let Some(b) = &self.disable_notification {
            push_field(&mut fields, "disable_notification", JsonValue::Bool(*b));
        }
        if let Some(n) = &self.reply_to_message_id {
            push_field(&mut fields, "reply_to_message_id", JsonValue::Int(*n));
        }
        if let Some(n) = &self.reply_to_message_id_level_2 {
            push_field(&mut fields, "reply_to_message_id_level_2", JsonValue::Int(*n));
        }
        if let Some(m) = &self.reply_markup {
            push_field(&mut fields, "reply_markup", m.doc.deep_copy());
        }
        if let Some(n) = &self.unreactive {
            push_field(&mut fields, "unreactive", JsonValue::Int(*n as i64));
        }
        if let Some(b) = &self.ephemeral {
            push_field(&mut fields, "ephemeral", JsonValue::Bool(*b));
        }
        if let Some(u) = &self.users {
            push_field(&mut fields, "users", strings_to_json(u));
        }
        let r = JsonValue::Obj(fields);
        proof {
            assert(r@->Obj_0 =~= self.spec_fields());
        }
        r
    }

    pub fn new(bot: Arc<Bot>, chat_id: ChatId, text: String) -> (r: Self)
        ensures
            r.bot == bot,
            r.chat_id == chat_id,
            r.text == text,
            r.desc is None,
            r.parse_mode is None,
            r.selective is None,
            r.disable_web_page_preview is None,
            r.disable_notification is None,
            r.reply_to_message_id is None,
            r.reply_to_message_id_level_2 is None,
            r.reply_markup is None,
            r.unreactive is None,
            r.ephemeral is None,
            r.users is None,
    {
        SendMessage {
            bot,
            chat_id,
            text,
            desc: None,
            parse_mode: None,
            selective: None,
            disable_web_page_preview: None,
            disable_notification: None,
            reply_to_message_id: None,
            reply_to_message_id_level_2: None,
            reply_markup: None,
            unreactive: None,
            users: None,
            ephemeral: None,
        }
    }

    /// Unique identifier for the target chat or username of the target
    /// channel (in the format `@channelusername`).
    pub fn chat_id(self, value: ChatId) -> (r: Self)
        ensures
            r == (SendMessage { chat_id: value, ..self }),
    {
        SendMessage { chat_id: value, ..self }
    }

    /// Text of the message to be sent.
    pub fn text(self, value: String) -> (r: Self)
        ensures
            r == (SendMessage { text: value, ..self }),
    {
        SendMessage { text: value, ..self }
    }

    /// Short text shown for the message in the chat list.
    pub fn desc(self, value: String) -> (r: Self)
        ensures
            r == (SendMessage { desc: Some(value), ..self }),
    {
        SendMessage { desc: Some(value), ..self }
    }

    /// How the message text is to be interpreted.
    pub fn parse_mode(self, value: ParseMode) -> (r: Self)
        ensures
            r == (SendMessage { parse_mode: Some(value), ..self }),
    {
        SendMessage { parse_mode: Some(value), ..self }
    }

    /// Disables link previews for links in this message.
    pub fn disable_web_page_preview(self, value: bool) -> (r: Self)
        ensures
            r == (SendMessage { disable_web_page_preview: Some(value), ..self }),
    {
        SendMessage { disable_web_page_preview: Some(value), ..self }
    }

    /// Sends the message silently: users receive a notification with no
    /// sound.
    pub fn disable_notification(self, value: bool) -> (r: Self)
        ensures
            r == (SendMessage { disable_notification: Some(value), ..self }),
    {
        SendMessage { disable_notification: Some(value), ..self }
    }

    /// If the message is a reply, the identifier of the original message.
    pub fn reply_to_message_id(self, value: i64) -> (r: Self)
        ensures
            r == (SendMessage { reply_to_message_id: Some(value), ..self }),
    {
        SendMessage { reply_to_message_id: Some(value), ..self }
    }

    /// Additional interface options: a JSON-serialized object for an inline
    /// keyboard, a custom reply keyboard, or instructions to remove or
    /// force a reply.
    pub fn reply_markup(self, value: ReplyMarkup) -> (r: Self)
        ensures
            r == (SendMessage { reply_markup: Some(value), ..self }),
    {
        SendMessage { reply_markup: Some(value), ..self }
    }

    pub fn selective(self, value: Option<bool>) -> (r: Self)
        ensures
            r == (SendMessage { selective: value, ..self }),
    {
        SendMessage { selective: value, ..self }
    }

    pub fn unreactive(self, value: Option<i32>) -> (r: Self)
        ensures
            r == (SendMessage { unreactive: value, ..self }),
    {
        SendMessage { unreactive: value, ..self }
    }

    pub fn ephemeral(self, value: Option<bool>) -> (r: Self)
        ensures
            r == (SendMessage { ephemeral: value, ..self }),
    {
        SendMessage { ephemeral: value, ..self }
    }

    pub fn users(self, value: Option<Vec<String>>) -> (r: Self)
        ensures
            r == (SendMessage { users: value, ..self }),
    {
        SendMessage { users: value, ..self }
    }
}

impl Request for SendMessage {
    type Output = JsonValue;

    open spec fn spec_method(&self) -> Seq<char> {
        "sendMessage"@
    }

    open spec fn spec_payload(&self) -> PayloadModel {
        PayloadModel::Json(spec_render(self.spec_body()))
    }

    open spec fn decode_ok(&self, body: Seq<char>, r: Result<JsonValue, RequestError>) -> bool {
        decode_doc_ok(body, r)
    }

    fn method_name(&self) -> (m: &'static str) {
        "sendMessage"
    }

    fn payload(&self) -> (p: Payload) {
        let body = self.body_json();
        Payload::Json(render(&body))
    }

    fn decode_response(&self, body: &str) -> (r: Result<JsonValue, RequestError>) {
        decode_doc_response(body)
    }
}

} // verus!
