//! Addressing a message either inside a chat or as an inline message.

use vstd::prelude::*;

use crate::json::{JsonModel, JsonValue, push_field};
use crate::types::{ChatId, chat_id_json};

verus! {

/// A chat message or inline message.
#[derive(Debug, Clone, PartialEq, Eq, Hash)]
pub enum ChatOrInlineMessage {
    Chat { chat_id: ChatId, message_id: i64 },
    Inline { inline_message_id: i64 },
}

/// The JSON form of a message address: the variants are distinguished by
/// their field names alone, with no tag.
pub open spec fn chat_or_inline_message_json(m: ChatOrInlineMessage) -> JsonModel {
    match m {
        ChatOrInlineMessage::Chat { chat_id, message_id } => JsonModel::Obj(
            seq![
                ("chat_id"@, chat_id_json(chat_id@)),
                ("message_id"@, JsonModel::Int(message_id as int)),
            ],
        ),
        ChatOrInlineMessage::Inline { inline_message_id } => JsonModel::Obj(
            seq![("inline_message_id"@, JsonModel::Int(inline_message_id as int))],
        ),
    }
}

impl ChatOrInlineMessage {
    pub fn to_json(&self) -> (r: JsonValue)
        ensures
            r@ == chat_or_inline_message_json(*self),
    {
        match self {
            ChatOrInlineMessage::Chat { chat_id, message_id } => {
                let mut fields: Vec<(String, JsonValue)> = Vec::new();
                push_field(&mut fields, "chat_id", chat_id.to_json());
                push_field(&mut fields, "message_id", JsonValue::Int(*message_id));
                let r = JsonValue::Obj(fields);
                proof {
                    assert(r@->Obj_0 =~= chat_or_inline_message_json(*self)->Obj_0);
                }
                r
            },
            ChatOrInlineMessage::Inline { inline_message_id } => {
                let mut fields: Vec<(String, JsonValue)> = Vec::new();
                push_field(&mut fields, "inline_message_id", JsonValue::Int(*inline_message_id));
                let r = JsonValue::Obj(fields);
                proof {
                    assert(r@->Obj_0 =~= chat_or_inline_message_json(*self)->Obj_0);
                }
                r
            },
        }
    }
}

} // verus!
