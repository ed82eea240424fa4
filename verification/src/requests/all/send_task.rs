//! Sending a task message.

use vstd::prelude::*;

use std::sync::Arc;

use crate::bot::Bot;
use crate::json::{JsonModel, JsonValue, push_field};
use crate::types::{ChatId, ParseMode, ReplyMarkup, chat_id_json, parse_mode_text};

verus! {

/// The parameters of a task message. Only the parameter set is defined
/// here; the operation itself is not part of this crate's catalog yet.
#[derive(Debug)]
pub struct SendTaskInduction {
    pub bot: Arc<Bot>,
    pub chat_id: ChatId,
    pub task: String,
    pub parse_mode: Option<ParseMode>,
    pub selective: Option<bool>,
    pub disable_web_page_preview: Option<bool>,
    pub disable_notification: Option<bool>,
    pub reply_to_message_id: Option<i64>,
    pub reply_markup: Option<ReplyMarkup>,
}

impl SendTaskInduction {
    pub open spec fn spec_fields(self) -> Seq<(Seq<char>, JsonModel)> {
        let s0 = Seq::empty().push(("chat_id"@, chat_id_json(self.chat_id@))).push(
            ("task"@, JsonModel::Str(self.task@)),
        );
        let s1 = match self.parse_mode {
            Some(m) => s0.push(("parse_mode"@, JsonModel::Str(parse_mode_text(m)))),
            None => s0,
        };
        let s2 = match self.selective {
            Some(b) => s1.push(("selective"@, JsonModel::Bool(b))),
            None => s1,
        };
        let s3 = match self.disable_web_page_preview {
            Some(b) => s2.push(("disable_web_page_preview"@, JsonModel::Bool(b))),
            None => s2,
        };
        let s4 = match self.disable_notification {
            Some(b) => s3.push(("disable_notification"@, JsonModel::Bool(b))),
            None => s3,
        };
        let s5 = match self.reply_to_message_id {
            Some(n) => s4.push(("reply_to_message_id"@, JsonModel::Int(n as int))),
            None => s4,
        };
        match self.reply_markup {
            Some(m) => s5.push(("reply_markup"@, m@)),
            None => s5,
        }
    }

    pub open spec fn spec_body(self) -> JsonModel {
        JsonModel::Obj(self.spec_fields())
    }

    pub fn body_json(&self) -> (r: JsonValue)
        ensures
            r@ == self.spec_body(),
    {
        let mut fields: Vec<(String, JsonValue)> = Vec::new();
        push_field(&mut fields, "chat_id", self.chat_id.to_json());
        push_field(&mut fields, "task", JsonValue::Str(self.task.clone()));
        if let Some(m) = &self.parse_mode {
            push_field(&mut fields, "parse_mode", m.to_json());
        }
        if let Some(b) = &self.selective {
            push_field(&mut fields, "selective", JsonValue::Bool(*b));
        }
        if let Some(b) = &self.disable_web_page_preview {
            push_field(&mut fields, "disable_web_page_preview", JsonValue::Bool(*b));
        }
        if let Some(b) = &self.disable_notification {
            push_field(&mut fields, "disable_notification", JsonValue::Bool(*b));
        }
        if let Some(n) = &self.reply_to_message_id {
            push_field(&mut fields, "reply_to_message_id", JsonValue::Int(*n));
        }
        if let Some(m) = &self.reply_markup {
            push_field(&mut fields, "reply_markup", m.doc.deep_copy());
        }
        let r = JsonValue::Obj(fields);
        proof {
            assert(r@->Obj_0 =~= self.spec_fields());
        }
        r
    }
}

} // verus!
