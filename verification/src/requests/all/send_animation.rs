//! Sending an animation.

use vstd::prelude::*;

use std::sync::Arc;

use crate::RequestError;
use crate::bot::Bot;
use crate::json::JsonValue;
use crate::requests::form_builder::{FormBuilder, PartModel, form_step};
use crate::requests::{Payload, PayloadModel, Request, decode_doc_ok, decode_doc_response};
use crate::types::{ChatId, InputFile, ParseMode, ReplyMarkup};
use vstd::pervasive::unreached;

verus! {

/// Sends an animation file (GIF or H.264/MPEG-4 AVC video without sound)
/// of up to 50 MB. Every field travels as a part of one multipart form, in
/// declaration order; an unset optional contributes no part at all.
#[derive(Debug)]
pub struct SendAnimation {
    pub bot: Arc<Bot>,
    pub chat_id: ChatId,
    pub animation: InputFile,
    pub duration: Option<u32>,
    pub width: Option<u32>,
    pub height: Option<u32>,
    pub thumb: Option<InputFile>,
    pub caption: Option<String>,
    pub parse_mode: Option<ParseMode>,
    pub disable_notification: Option<bool>,
    pub reply_to_message_id: Option<i64>,
    pub reply_markup: Option<ReplyMarkup>,
}

impl SendAnimation {
    /// The parts of this request's multipart form: one per set field, in
    /// declaration order.
    pub open spec fn spec_form(self) -> Seq<PartModel> {
        let s0 = form_step(Seq::empty(), "chat_id"@, self.chat_id);
        let s1 = form_step(s0, "animation"@, self.animation);
        let s2 = form_step(s1, "duration"@, self.duration);
        let s3 = form_step(s2, "width"@, self.width);
        let s4 = form_step(s3, "height"@, self.height);
        let s5 = form_step(s4, "thumb"@, self.thumb);
        let s6 = form_step(s5, "caption"@, self.caption);
        let s7 = form_step(s6, "parse_mode"@, self.parse_mode);
        let s8 = form_step(s7, "disable_notification"@, self.disable_notification);
        let s9 = form_step(s8, "reply_to_message_id"@, self.reply_to_message_id);
        form_step(s9, "reply_markup"@, self.reply_markup)
    }

    pub fn new(bot: Arc<Bot>, chat_id: ChatId, animation: InputFile) -> (r: Self)
        ensures
            r.bot == bot,
            r.chat_id == chat_id,
            r.animation == animation,
            r.duration is None,
            r.width is None,
            r.height is None,
            r.thumb is None,
            r.caption is None,
            r.parse_mode is None,
            r.disable_notification is None,
            r.reply_to_message_id is None,
            r.reply_markup is None,
    {
        SendAnimation {
            bot,
            chat_id,
            animation,
            duration: None,
            width: None,
            height: None,
            thumb: None,
            caption: None,
            parse_mode: None,
            disable_notification: None,
            reply_to_message_id: None,
            reply_markup: None,
        }
    }

    /// Unique identifier for the target chat or username of the target
    /// channel (in the format `@channelusername`).
    pub fn chat_id(self, value: ChatId) -> (r: Self)
        ensures
            r == (SendAnimation { chat_id: value, ..self }),
    {
        SendAnimation { chat_id: value, ..self }
    }

    /// The animation to send.
    pub fn animation(self, value: InputFile) -> (r: Self)
        ensures
            r == (SendAnimation { animation: value, ..self }),
    {
        SendAnimation { animation: value, ..self }
    }

    /// Duration of the sent animation in seconds.
    pub fn duration(self, value: u32) -> (r: Self)
        ensures
            r == (SendAnimation { duration: Some(value), ..self }),
    {
        SendAnimation { duration: Some(value), ..self }
    }

    /// Animation width.
    pub fn width(self, value: u32) -> (r: Self)
        ensures
            r == (SendAnimation { width: Some(value), ..self }),
    {
        SendAnimation { width: Some(value), ..self }
    }

    /// Animation height.
    pub fn height(self, value: u32) -> (r: Self)
        ensures
            r == (SendAnimation { height: Some(value), ..self }),
    {
        SendAnimation { height: Some(value), ..self }
    }

    /// Thumbnail of the file sent: JPEG, under 200 kB, neither side over
    /// 320 px. Ignored unless the file itself is uploaded with the form.
    pub fn thumb(self, value: InputFile) -> (r: Self)
        ensures
            r == (SendAnimation { thumb: Some(value), ..self }),
    {
        SendAnimation { thumb: Some(value), ..self }
    }

    /// Animation caption, 0-1024 characters.
    pub fn caption(self, value: String) -> (r: Self)
        ensures
            r == (SendAnimation { caption: Some(value), ..self }),
    {
        SendAnimation { caption: Some(value), ..self }
    }

    /// How the caption's text is to be interpreted.
    pub fn parse_mode(self, value: ParseMode) -> (r: Self)
        ensures
            r == (SendAnimation { parse_mode: Some(value), ..self }),
    {
        SendAnimation { parse_mode: Some(value), ..self }
    }

    /// Sends the message silently: users receive a notification with no
    /// sound.
    pub fn disable_notification(self, value: bool) -> (r: Self)
        ensures
            r == (SendAnimation { disable_notification: Some(value), ..self }),
    {
        SendAnimation { disable_notification: Some(value), ..self }
    }

    /// If the message is a reply, the identifier of the original message.
    pub fn reply_to_message_id(self, value: i64) -> (r: Self)
        ensures
            r == (SendAnimation { reply_to_message_id: Some(value), ..self }),
    {
        SendAnimation { reply_to_message_id: Some(value), ..self }
    }

    /// Additional interface options: a JSON-serialized object for an
    /// inline keyboard, a custom reply keyboard, or instructions to remove
    /// or force a reply.
    pub fn reply_markup(self, value: ReplyMarkup) -> (r: Self)
        ensures
            r == (SendAnimation { reply_markup: Some(value), ..self }),
    {
        SendAnimation { reply_markup: Some(value), ..self }
    }
}

impl Request for SendAnimation {
    type Output = JsonValue;

    open spec fn spec_method(&self) -> Seq<char> {
        "sendAnimation"@
    }

    open spec fn spec_payload(&self) -> PayloadModel {
        PayloadModel::Multipart(self.spec_form())
    }

    open spec fn decode_ok(&self, body: Seq<char>, r: Result<JsonValue, RequestError>) -> bool {
        decode_doc_ok(body, r)
    }

    fn method_name(&self) -> (m: &'static str) {
        "sendAnimation"
    }

    fn payload(&self) -> (p: Payload) {
        let mut builder = FormBuilder::new().add("chat_id", &self.chat_id).add(
            "animation",
            &self.animation,
        ).add("duration", &self.duration).add("width", &self.width).add("height", &self.height)
            .add("thumb", &self.thumb).add("caption", &self.caption).add(
            "parse_mode",
            &self.parse_mode,
        ).add("disable_notification", &self.disable_notification).add(
            "reply_to_message_id",
            &self.reply_to_message_id,
        ).add("reply_markup", &self.reply_markup);
        match builder.build() {
            Some(form) => Payload::Multipart(form),
            None => unreached(),
        }
    }

    fn decode_response(&self, body: &str) -> (r: Result<JsonValue, RequestError>) {
        decode_doc_response(body)
    }
}

} // verus!
