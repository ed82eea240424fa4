//! A link to an audio file the service already stores, offered as an inline
//! query result.

use vstd::prelude::*;

use crate::json::{JsonModel, JsonValue, push_field};
use crate::types::{InlineKeyboardMarkup, InputMessageContent, ParseMode, parse_mode_text};

verus! {

/// Represents a link to an audio file stored on the service's servers. By
/// default the audio file is sent as it stands; `input_message_content`
/// replaces it with another message body.
#[derive(Debug, PartialEq)]
pub struct InlineQueryResultCachedAudio {
    /// Unique identifier for this result, 1-64 bytes.
    pub id: String,
    /// A valid file identifier for the audio file.
    pub audio_file_id: String,
    /// Caption, 0-1024 characters.
    pub caption: Option<String>,
    /// How the caption's text is to be interpreted.
    pub parse_mode: Option<ParseMode>,
    /// Inline keyboard attached to the message.
    pub reply_markup: Option<InlineKeyboardMarkup>,
    /// Content of the message to be sent instead of the audio.
    pub input_message_content: Option<InputMessageContent>,
}

/// The JSON form of a cached-audio result: the set fields in declaration
/// order, absent fields omitted entirely.
pub open spec fn inline_query_result_cached_audio_json(r: InlineQueryResultCachedAudio) -> JsonModel {
    let s0 = Seq::empty().push(("id"@, JsonModel::Str(r.id@))).push(
        ("audio_file_id"@, JsonModel::Str(r.audio_file_id@)),
    );
    let s1 = match r.caption {
        Some(c) => s0.push(("caption"@, JsonModel::Str(c@))),
        None => s0,
    };
    let s2 = match r.parse_mode {
        Some(m) => s1.push(("parse_mode"@, JsonModel::Str(parse_mode_text(m)))),
        None => s1,
    };
    let s3 = match r.reply_markup {
        Some(m) => s2.push(("reply_markup"@, m@)),
        None => s2,
    };
    let s4 = match r.input_message_content {
        Some(c) => s3.push(("input_message_content"@, c@)),
        None => s3,
    };
    JsonModel::Obj(s4)
}

impl InlineQueryResultCachedAudio {
    pub fn to_json(&self) -> (r: JsonValue)
        ensures
            r@ == inline_query_result_cached_audio_json(*self),
    {
        let mut fields: Vec<(String, JsonValue)> = Vec::new();
        push_field(&mut fields, "id", JsonValue::Str(self.id.clone()));
        push_field(&mut fields, "audio_file_id", JsonValue::Str(self.audio_file_id.clone()));
        if let Some(c) = &self.caption {
            push_field(&mut fields, "caption", JsonValue::Str(c.clone()));
        }
        if let Some(m) = &self.parse_mode {
            push_field(&mut fields, "parse_mode", m.to_json());
        }
        if let Some(m) = &self.reply_markup {
            push_field(&mut fields, "reply_markup", m.doc.deep_copy());
        }
        if let Some(c) = &self.input_message_content {
            push_field(&mut fields, "input_message_content", c.doc.deep_copy());
        }
        let r = JsonValue::Obj(fields);
        proof {
            assert(r@->Obj_0 =~= inline_query_result_cached_audio_json(*self)->Obj_0);
        }
        r
    }
}

} // verus!
