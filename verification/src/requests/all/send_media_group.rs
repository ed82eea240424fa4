//! Sending a group of photos or videos as an album.

use vstd::prelude::*;

use std::sync::Arc;

use crate::RequestError;
use crate::bot::Bot;
use crate::json::JsonValue;
use crate::requests::form_builder::{FormBuilder, PartModel, form_step};
use crate::requests::{Payload, PayloadModel, Request, decode_list_ok, decode_list_response};
use crate::types::{ChatId, InputMedia};
use vstd::pervasive::unreached;

verus! {

/// Sends a group of photos or videos as an album of 2 to 10 elements. The
/// service answers with the list of sent messages.
#[derive(Debug)]
pub struct SendMediaGroup {
    pub bot: Arc<Bot>,
    pub chat_id: ChatId,
    pub media: Vec<InputMedia>,
    pub disable_notification: Option<bool>,
    pub reply_to_message_id: Option<i64>,
}

impl SendMediaGroup {
    /// The parts of this request's multipart form: one per set field, in
    /// declaration order.
    pub open spec fn spec_form(self) -> Seq<PartModel> {
        let s0 = form_step(Seq::empty(), "chat_id"@, self.chat_id);
        let s1 = form_step(s0, "media"@, self.media);
        let s2 = form_step(s1, "disable_notification"@, self.disable_notification);
        form_step(s2, "reply_to_message_id"@, self.reply_to_message_id)
    }

    pub fn new(bot: Arc<Bot>, chat_id: ChatId, media: Vec<InputMedia>) -> (r: Self)
        ensures
            r.bot == bot,
            r.chat_id == chat_id,
            r.media == media,
            r.disable_notification is None,
            r.reply_to_message_id is None,
    {
        SendMediaGroup { bot, chat_id, media, disable_notification: None, reply_to_message_id: None }
    }

    /// Unique identifier for the target chat or username of the target
    /// channel (in the format `@channelusername`).
    pub fn chat_id(self, value: ChatId) -> (r: Self)
        ensures
            r == (SendMediaGroup { chat_id: value, ..self }),
    {
        SendMediaGroup { chat_id: value, ..self }
    }

    /// The photos and videos to be sent, 2 to 10 elements.
    pub fn media(self, value: Vec<InputMedia>) -> (r: Self)
        ensures
            r == (SendMediaGroup { media: value, ..self }),
    {
        SendMediaGroup { media: value, ..self }
    }

    /// Sends the messages silently: users receive a notification with no
    /// sound.
    pub fn disable_notification(self, value: bool) -> (r: Self)
        ensures
            r == (SendMediaGroup { disable_notification: Some(value), ..self }),
    {
        SendMediaGroup { disable_notification: Some(value), ..self }
    }

    /// If the messages are a reply, the identifier of the original
    /// message.
    pub fn reply_to_message_id(self, value: i64) -> (r: Self)
        ensures
            r == (SendMediaGroup { reply_to_message_id: Some(value), ..self }),
    {
        SendMediaGroup { reply_to_message_id: Some(value), ..self }
    }
}

impl Request for SendMediaGroup {
    type Output = Vec<JsonValue>;

    open spec fn spec_method(&self) -> Seq<char> {
        "sendMediaGroup"@
    }

    open spec fn spec_payload(&self) -> PayloadModel {
        PayloadModel::Multipart(self.spec_form())
    }

    open spec fn decode_ok(&self, body: Seq<char>, r: Result<Vec<JsonValue>, RequestError>) -> bool {
        decode_list_ok(body, r)
    }

    fn method_name(&self) -> (m: &'static str) {
        "sendMediaGroup"
    }

    fn payload(&self) -> (p: Payload) {
        let mut builder = FormBuilder::new().add("chat_id", &self.chat_id).add(
            "media",
            &self.media,
        ).add("disable_notification", &self.disable_notification).add(
            "reply_to_message_id",
            &self.reply_to_message_id,
        );
        match builder.build() {
            Some(form) => Payload::Multipart(form),
            None => unreached(),
        }
    }

    fn decode_response(&self, body: &str) -> (r: Result<Vec<JsonValue>, RequestError>) {
        decode_list_response(body)
    }
}

} // verus!
