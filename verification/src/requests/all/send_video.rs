//! Sending a video.

use vstd::prelude::*;

use std::sync::Arc;

use crate::RequestError;
use crate::bot::Bot;
use crate::json::JsonValue;
use crate::requests::form_builder::{FormBuilder, PartModel, form_step, has_part,
    lemma_form_step_other_name};
use crate::requests::{Payload, PayloadModel, Request, decode_doc_ok, decode_doc_response};
use crate::types::{ChatId, InputFile, ParseMode, ReplyMarkup};
use vstd::pervasive::unreached;

verus! {

/// Sends a video file; mp4 videos of up to 50 MB are supported. Every
/// field travels as a part of one multipart form, in declaration order; an
/// unset optional contributes no part at all.
#[derive(Debug)]
pub struct SendVideo {
    pub bot: Arc<Bot>,
    pub chat_id: ChatId,
    pub video: InputFile,
    pub duration: Option<i32>,
    pub width: Option<i32>,
    pub height: Option<i32>,
    pub thumb: Option<InputFile>,
    pub caption: Option<String>,
    pub parse_mode: Option<ParseMode>,
    pub supports_streaming: Option<bool>,
    pub disable_notification: Option<bool>,
    pub reply_to_message_id: Option<i64>,
    pub reply_markup: Option<ReplyMarkup>,
}

impl SendVideo {
    /// The parts of this request's multipart form: one per set field, in
    /// declaration order.
    pub open spec fn spec_form(self) -> Seq<PartModel> {
        let s0 = form_step(Seq::empty(), "chat_id"@, self.chat_id);
        let s1 = form_step(s0, "video"@, self.video);
        let s2 = form_step(s1, "duration"@, self.duration);
        let s3 = form_step(s2, "width"@, self.width);
        let s4 = form_step(s3, "height"@, self.height);
        let s5 = form_step(s4, "thumb"@, self.thumb);
        let s6 = form_step(s5, "caption"@, self.caption);
        let s7 = form_step(s6, "parse_mode"@, self.parse_mode);
        let s8 = form_step(s7, "supports_streaming"@, self.supports_streaming);
        let s9 = form_step(s8, "disable_notification"@, self.disable_notification);
        let s10 = form_step(s9, "reply_to_message_id"@, self.reply_to_message_id);
        form_step(s10, "reply_markup"@, self.reply_markup)
    }

    pub fn new(bot: Arc<Bot>, chat_id: ChatId, video: InputFile) -> (r: Self)
        ensures
            r.bot == bot,
            r.chat_id == chat_id,
            r.video == video,
            r.duration is None,
            r.width is None,
            r.height is None,
            r.thumb is None,
            r.caption is None,
            r.parse_mode is None,
            r.supports_streaming is None,
            r.disable_notification is None,
            r.reply_to_message_id is None,
            r.reply_markup is None,
    {
        SendVideo {
            bot,
            chat_id,
            video,
            duration: None,
            width: None,
            height: None,
            thumb: None,
            caption: None,
            parse_mode: None,
            supports_streaming: None,
            disable_notification: None,
            reply_to_message_id: None,
            reply_markup: None,
        }
    }

    /// Unique identifier for the target chat or username of the target
    /// channel (in the format `@channelusername`).
    pub fn chat_id(self, value: ChatId) -> (r: Self)
        ensures
            r == (SendVideo { chat_id: value, ..self }),
    {
        SendVideo { chat_id: value, ..self }
    }

    /// The video to send: a local file, an in-memory buffer, a URL, or an
    /// identifier of a file the service already holds.
    pub fn video(self, value: InputFile) -> (r: Self)
        ensures
            r == (SendVideo { video: value, ..self }),
    {
        SendVideo { video: value, ..self }
    }

    /// Duration of the sent video in seconds.
    pub fn duration(self, value: i32) -> (r: Self)
        ensures
            r == (SendVideo { duration: Some(value), ..self }),
    {
        SendVideo { duration: Some(value), ..self }
    }

    /// Video width.
    pub fn width(self, value: i32) -> (r: Self)
        ensures
            r == (SendVideo { width: Some(value), ..self }),
    {
        SendVideo { width: Some(value), ..self }
    }

    /// Video height.
    pub fn height(self, value: i32) -> (r: Self)
        ensures
            r == (SendVideo { height: Some(value), ..self }),
    {
        SendVideo { height: Some(value), ..self }
    }

    /// Thumbnail of the file sent: JPEG, under 200 kB, neither side over
    /// 320 px. Ignored unless the file itself is uploaded with the form.
    pub fn thumb(self, value: InputFile) -> (r: Self)
        ensures
            r == (SendVideo { thumb: Some(value), ..self }),
    {
        SendVideo { thumb: Some(value), ..self }
    }

    /// Video caption, 0-1024 characters; also usable when resending videos
    /// by file identifier.
    pub fn caption(self, value: String) -> (r: Self)
        ensures
            r == (SendVideo { caption: Some(value), ..self }),
    {
        SendVideo { caption: Some(value), ..self }
    }

    /// How the caption's text is to be interpreted.
    pub fn parse_mode(self, value: ParseMode) -> (r: Self)
        ensures
            r == (SendVideo { parse_mode: Some(value), ..self }),
    {
        SendVideo { parse_mode: Some(value), ..self }
    }

    /// Pass `true` if the uploaded video is suitable for streaming.
    pub fn supports_streaming(self, value: bool) -> (r: Self)
        ensures
            r == (SendVideo { supports_streaming: Some(value), ..self }),
    {
        SendVideo { supports_streaming: Some(value), ..self }
    }

    /// Sends the message silently: users receive a notification with no
    /// sound.
    pub fn disable_notification(self, value: bool) -> (r: Self)
        ensures
            r == (SendVideo { disable_notification: Some(value), ..self }),
    {
        SendVideo { disable_notification: Some(value), ..self }
    }

    /// If the message is a reply, the identifier of the original message.
    pub fn reply_to_message_id(self, value: i64) -> (r: Self)
        ensures
            r == (SendVideo { reply_to_message_id: Some(value), ..self }),
    {
        SendVideo { reply_to_message_id: Some(value), ..self }
    }

    /// Additional interface options: a JSON-serialized object for an
    /// inline keyboard, a custom reply keyboard, or instructions to remove
    /// or force a reply.
    pub fn reply_markup(self, value: ReplyMarkup) -> (r: Self)
        ensures
            r == (SendVideo { reply_markup: Some(value), ..self }),
    {
        SendVideo { reply_markup: Some(value), ..self }
    }
}

/// An unset optional field of a video request contributes no part to the
/// assembled form, not even an empty one: no part of the form bears that
/// field's name.
pub proof fn lemma_unset_fields_add_no_part(r: SendVideo)
    ensures
        r.duration is None ==> !has_part(r.spec_form(), "duration"@),
        r.width is None ==> !has_part(r.spec_form(), "width"@),
        r.height is None ==> !has_part(r.spec_form(), "height"@),
        r.thumb is None ==> !has_part(r.spec_form(), "thumb"@),
        r.caption is None ==> !has_part(r.spec_form(), "caption"@),
        r.parse_mode is None ==> !has_part(r.spec_form(), "parse_mode"@),
        r.supports_streaming is None ==> !has_part(r.spec_form(), "supports_streaming"@),
        r.disable_notification is None ==> !has_part(r.spec_form(), "disable_notification"@),
        r.reply_to_message_id is None ==> !has_part(r.spec_form(), "reply_to_message_id"@),
        r.reply_markup is None ==> !has_part(r.spec_form(), "reply_markup"@),
{
    reveal_strlit("chat_id");
    reveal_strlit("video");
    reveal_strlit("duration");
    reveal_strlit("width");
    reveal_strlit("height");
    reveal_strlit("thumb");
    reveal_strlit("caption");
    reveal_strlit("parse_mode");
    reveal_strlit("supports_streaming");
    reveal_strlit("disable_notification");
    reveal_strlit("reply_to_message_id");
    reveal_strlit("reply_markup");
    assert(("chat_id")@.len() == 7);
    assert(("video")@.len() == 5);
    assert(("duration")@.len() == 8);
    assert(("width")@.len() == 5);
    assert(("height")@.len() == 6);
    assert(("thumb")@.len() == 5);
    assert(("caption")@.len() == 7);
    assert(("parse_mode")@.len() == 10);
    assert(("supports_streaming")@.len() == 18);
    assert(("disable_notification")@.len() == 20);
    assert(("reply_to_message_id")@.len() == 19);
    assert(("reply_markup")@.len() == 12);
    assert(("video")@[0] == 'v');
    assert(("width")@[0] == 'w');
    assert(("thumb")@[0] == 't');
    assert(("chat_id")@[1] == 'h');
    assert(("caption")@[1] == 'a');
    let e = Seq::<PartModel>::empty();
    let s0 = form_step(e, "chat_id"@, r.chat_id);
    let s1 = form_step(s0, "video"@, r.video);
    let s2 = form_step(s1, "duration"@, r.duration);
    let s3 = form_step(s2, "width"@, r.width);
    let s4 = form_step(s3, "height"@, r.height);
    let s5 = form_step(s4, "thumb"@, r.thumb);
    let s6 = form_step(s5, "caption"@, r.caption);
    let s7 = form_step(s6, "parse_mode"@, r.parse_mode);
    let s8 = form_step(s7, "supports_streaming"@, r.supports_streaming);
    let s9 = form_step(s8, "disable_notification"@, r.disable_notification);
    let s10 = form_step(s9, "reply_to_message_id"@, r.reply_to_message_id);
    let s11 = form_step(s10, "reply_markup"@, r.reply_markup);
    assert(r.spec_form() == s11);
    if r.duration is None {
        lemma_form_step_other_name(e, "chat_id"@, r.chat_id, "duration"@);
        lemma_form_step_other_name(s0, "video"@, r.video, "duration"@);
        assert(s2 == s1);
        lemma_form_step_other_name(s2, "width"@, r.width, "duration"@);
        lemma_form_step_other_name(s3, "height"@, r.height, "duration"@);
        lemma_form_step_other_name(s4, "thumb"@, r.thumb, "duration"@);
        lemma_form_step_other_name(s5, "caption"@, r.caption, "duration"@);
        lemma_form_step_other_name(s6, "parse_mode"@, r.parse_mode, "duration"@);
        lemma_form_step_other_name(s7, "supports_streaming"@, r.supports_streaming, "duration"@);
        lemma_form_step_other_name(s8, "disable_notification"@, r.disable_notification, "duration"@);
        lemma_form_step_other_name(s9, "reply_to_message_id"@, r.reply_to_message_id, "duration"@);
        lemma_form_step_other_name(s10, "reply_markup"@, r.reply_markup, "duration"@);
    }
    if r.width is None {
        lemma_form_step_other_name(e, "chat_id"@, r.chat_id, "width"@);
        lemma_form_step_other_name(s0, "video"@, r.video, "width"@);
        lemma_form_step_other_name(s1, "duration"@, r.duration, "width"@);
        assert(s3 == s2);
        lemma_form_step_other_name(s3, "height"@, r.height, "width"@);
        lemma_form_step_other_name(s4, "thumb"@, r.thumb, "width"@);
        lemma_form_step_other_name(s5, "caption"@, r.caption, "width"@);
        lemma_form_step_other_name(s6, "parse_mode"@, r.parse_mode, "width"@);
        lemma_form_step_other_name(s7, "supports_streaming"@, r.supports_streaming, "width"@);
        lemma_form_step_other_name(s8, "disable_notification"@, r.disable_notification, "width"@);
        lemma_form_step_other_name(s9, "reply_to_message_id"@, r.reply_to_message_id, "width"@);
        lemma_form_step_other_name(s10, "reply_markup"@, r.reply_markup, "width"@);
    }
    if r.height is None {
        lemma_form_step_other_name(e, "chat_id"@, r.chat_id, "height"@);
        lemma_form_step_other_name(s0, "video"@, r.video, "height"@);
        lemma_form_step_other_name(s1, "duration"@, r.duration, "height"@);
        lemma_form_step_other_name(s2, "width"@, r.width, "height"@);
        assert(s4 == s3);
        lemma_form_step_other_name(s4, "thumb"@, r.thumb, "height"@);
        lemma_form_step_other_name(s5, "caption"@, r.caption, "height"@);
        lemma_form_step_other_name(s6, "parse_mode"@, r.parse_mode, "height"@);
        lemma_form_step_other_name(s7, "supports_streaming"@, r.supports_streaming, "height"@);
        lemma_form_step_other_name(s8, "disable_notification"@, r.disable_notification, "height"@);
        lemma_form_step_other_name(s9, "reply_to_message_id"@, r.reply_to_message_id, "height"@);
        lemma_form_step_other_name(s10, "reply_markup"@, r.reply_markup, "height"@);
    }
    if r.thumb is None {
        lemma_form_step_other_name(e, "chat_id"@, r.chat_id, "thumb"@);
        lemma_form_step_other_name(s0, "video"@, r.video, "thumb"@);
        lemma_form_step_other_name(s1, "duration"@, r.duration, "thumb"@);
        lemma_form_step_other_name(s2, "width"@, r.width, "thumb"@);
        lemma_form_step_other_name(s3, "height"@, r.height, "thumb"@);
        assert(s5 == s4);
        lemma_form_step_other_name(s5, "caption"@, r.caption, "thumb"@);
        lemma_form_step_other_name(s6, "parse_mode"@, r.parse_mode, "thumb"@);
        lemma_form_step_other_name(s7, "supports_streaming"@, r.supports_streaming, "thumb"@);
        lemma_form_step_other_name(s8, "disable_notification"@, r.disable_notification, "thumb"@);
        lemma_form_step_other_name(s9, "reply_to_message_id"@, r.reply_to_message_id, "thumb"@);
        lemma_form_step_other_name(s10, "reply_markup"@, r.reply_markup, "thumb"@);
    }
    if r.caption is None {
        lemma_form_step_other_name(e, "chat_id"@, r.chat_id, "caption"@);
        lemma_form_step_other_name(s0, "video"@, r.video, "caption"@);
        lemma_form_step_other_name(s1, "duration"@, r.duration, "caption"@);
        lemma_form_step_other_name(s2, "width"@, r.width, "caption"@);
        lemma_form_step_other_name(s3, "height"@, r.height, "caption"@);
        lemma_form_step_other_name(s4, "thumb"@, r.thumb, "caption"@);
        assert(s6 == s5);
        lemma_form_step_other_name(s6, "parse_mode"@, r.parse_mode, "caption"@);
        lemma_form_step_other_name(s7, "supports_streaming"@, r.supports_streaming, "caption"@);
        lemma_form_step_other_name(s8, "disable_notification"@, r.disable_notification, "caption"@);
        lemma_form_step_other_name(s9, "reply_to_message_id"@, r.reply_to_message_id, "caption"@);
        lemma_form_step_other_name(s10, "reply_markup"@, r.reply_markup, "caption"@);
    }
    if r.parse_mode is None {
        lemma_form_step_other_name(e, "chat_id"@, r.chat_id, "parse_mode"@);
        lemma_form_step_other_name(s0, "video"@, r.video, "parse_mode"@);
        lemma_form_step_other_name(s1, "duration"@, r.duration, "parse_mode"@);
        lemma_form_step_other_name(s2, "width"@, r.width, "parse_mode"@);
        lemma_form_step_other_name(s3, "height"@, r.height, "parse_mode"@);
        lemma_form_step_other_name(s4, "thumb"@, r.thumb, "parse_mode"@);
        lemma_form_step_other_name(s5, "caption"@, r.caption, "parse_mode"@);
        assert(s7 == s6);
        lemma_form_step_other_name(s7, "supports_streaming"@, r.supports_streaming, "parse_mode"@);
        lemma_form_step_other_name(s8, "disable_notification"@, r.disable_notification, "parse_mode"@);
        lemma_form_step_other_name(s9, "reply_to_message_id"@, r.reply_to_message_id, "parse_mode"@);
        lemma_form_step_other_name(s10, "reply_markup"@, r.reply_markup, "parse_mode"@);
    }
    if r.supports_streaming is None {
        lemma_form_step_other_name(e, "chat_id"@, r.chat_id, "supports_streaming"@);
        lemma_form_step_other_name(s0, "video"@, r.video, "supports_streaming"@);
        lemma_form_step_other_name(s1, "duration"@, r.duration, "supports_streaming"@);
        lemma_form_step_other_name(s2, "width"@, r.width, "supports_streaming"@);
        lemma_form_step_other_name(s3, "height"@, r.height, "supports_streaming"@);
        lemma_form_step_other_name(s4, "thumb"@, r.thumb, "supports_streaming"@);
        lemma_form_step_other_name(s5, "caption"@, r.caption, "supports_streaming"@);
        lemma_form_step_other_name(s6, "parse_mode"@, r.parse_mode, "supports_streaming"@);
        assert(s8 == s7);
        lemma_form_step_other_name(s8, "disable_notification"@, r.disable_notification, "supports_streaming"@);
        lemma_form_step_other_name(s9, "reply_to_message_id"@, r.reply_to_message_id, "supports_streaming"@);
        lemma_form_step_other_name(s10, "reply_markup"@, r.reply_markup, "supports_streaming"@);
    }
    if r.disable_notification is None {
        lemma_form_step_other_name(e, "chat_id"@, r.chat_id, "disable_notification"@);
        lemma_form_step_other_name(s0, "video"@, r.video, "disable_notification"@);
        lemma_form_step_other_name(s1, "duration"@, r.duration, "disable_notification"@);
        lemma_form_step_other_name(s2, "width"@, r.width, "disable_notification"@);
        lemma_form_step_other_name(s3, "height"@, r.height, "disable_notification"@);
        lemma_form_step_other_name(s4, "thumb"@, r.thumb, "disable_notification"@);
        lemma_form_step_other_name(s5, "caption"@, r.caption, "disable_notification"@);
        lemma_form_step_other_name(s6, "parse_mode"@, r.parse_mode, "disable_notification"@);
        lemma_form_step_other_name(s7, "supports_streaming"@, r.supports_streaming, "disable_notification"@);
        assert(s9 == s8);
        lemma_form_step_other_name(s9, "reply_to_message_id"@, r.reply_to_message_id, "disable_notification"@);
        lemma_form_step_other_name(s10, "reply_markup"@, r.reply_markup, "disable_notification"@);
    }
    if r.reply_to_message_id is None {
        lemma_form_step_other_name(e, "chat_id"@, r.chat_id, "reply_to_message_id"@);
        lemma_form_step_other_name(s0, "video"@, r.video, "reply_to_message_id"@);
        lemma_form_step_other_name(s1, "duration"@, r.duration, "reply_to_message_id"@);
        lemma_form_step_other_name(s2, "width"@, r.width, "reply_to_message_id"@);
        lemma_form_step_other_name(s3, "height"@, r.height, "reply_to_message_id"@);
        lemma_form_step_other_name(s4, "thumb"@, r.thumb, "reply_to_message_id"@);
        lemma_form_step_other_name(s5, "caption"@, r.caption, "reply_to_message_id"@);
        lemma_form_step_other_name(s6, "parse_mode"@, r.parse_mode, "reply_to_message_id"@);
        lemma_form_step_other_name(s7, "supports_streaming"@, r.supports_streaming, "reply_to_message_id"@);
        lemma_form_step_other_name(s8, "disable_notification"@, r.disable_notification, "reply_to_message_id"@);
        assert(s10 == s9);
        lemma_form_step_other_name(s10, "reply_markup"@, r.reply_markup, "reply_to_message_id"@);
    }
    if r.reply_markup is None {
        lemma_form_step_other_name(e, "chat_id"@, r.chat_id, "reply_markup"@);
        lemma_form_step_other_name(s0, "video"@, r.video, "reply_markup"@);
        lemma_form_step_other_name(s1, "duration"@, r.duration, "reply_markup"@);
        lemma_form_step_other_name(s2, "width"@, r.width, "reply_markup"@);
        lemma_form_step_other_name(s3, "height"@, r.height, "reply_markup"@);
        lemma_form_step_other_name(s4, "thumb"@, r.thumb, "reply_markup"@);
        lemma_form_step_other_name(s5, "caption"@, r.caption, "reply_markup"@);
        lemma_form_step_other_name(s6, "parse_mode"@, r.parse_mode, "reply_markup"@);
        lemma_form_step_other_name(s7, "supports_streaming"@, r.supports_streaming, "reply_markup"@);
        lemma_form_step_other_name(s8, "disable_notification"@, r.disable_notification, "reply_markup"@);
        lemma_form_step_other_name(s9, "reply_to_message_id"@, r.reply_to_message_id, "reply_markup"@);
        assert(s11 == s10);
    }
}

impl Request for SendVideo {
    type Output = JsonValue;

    open spec fn spec_method(&self) -> Seq<char> {
        "sendVideo"@
    }

    open spec fn spec_payload(&self) -> PayloadModel {
        PayloadModel::Multipart(self.spec_form())
    }

    open spec fn decode_ok(&self, body: Seq<char>, r: Result<JsonValue, RequestError>) -> bool {
        decode_doc_ok(body, r)
    }

    fn method_name(&self) -> (m: &'static str) {
        "sendVideo"
    }

    fn payload(&self) -> (p: Payload) {
        let mut builder = FormBuilder::new().add("chat_id", &self.chat_id).add(
            "video",
            &self.video,
        ).add("duration", &self.duration).add("width", &self.width).add("height", &self.height)
            .add("thumb", &self.thumb).add("caption", &self.caption).add(
            "parse_mode",
            &self.parse_mode,
        ).add("supports_streaming", &self.supports_streaming).add(
            "disable_notification",
            &self.disable_notification,
        ).add("reply_to_message_id", &self.reply_to_message_id).add(
            "reply_markup",
            &self.reply_markup,
        );
        match builder.build() {
            Some(form) => Payload::Multipart(form),
            None => unreached(),
        }
    }

    fn decode_response(&self, body: &str) -> (r: Result<JsonValue, RequestError>) {
        decode_doc_response(body)
    }
}

} // verus!
