//! Kicking a member from a chat or guild.

use vstd::prelude::*;

use std::sync::Arc;

use crate::RequestError;
use crate::bot::Bot;
use crate::json::{JsonModel, JsonValue, push_field};
use crate::jsontext::{render, spec_render};
use crate::requests::{Payload, PayloadModel, Request, decode_bool_ok, decode_bool_response};
use crate::types::{ChatId, chat_id_json};

verus! {

/// Kicks a user from a group, supergroup or channel. The service
/// acknowledges with a boolean.
#[derive(Debug)]
pub struct KickChatMember {
    pub bot: Arc<Bot>,
    pub chat_id: Option<ChatId>,
    pub user_id: i64,
    pub guild_id: Option<i64>,
    pub until_date: Option<i32>,
}

impl KickChatMember {
    pub open spec fn spec_fields(self) -> Seq<(Seq<char>, JsonModel)> {
        let s0 = match self.chat_id {
            Some(c) => Seq::empty().push(("chat_id"@, chat_id_json(c@))),
            None => Seq::empty(),
        };
        let s1 = s0.push(("user_id"@, JsonModel::Int(self.user_id as int)));
        let s2 = match self.guild_id {
            Some(g) => s1.push(("guild_id"@, JsonModel::Int(g as int))),
            None => s1,
        };
        match self.until_date {
            Some(d) => s2.push(("until_date"@, JsonModel::Int(d as int))),
            None => s2,
        }
    }

    pub open spec fn spec_body(self) -> JsonModel {
        JsonModel::Obj(self.spec_fields())
    }

    pub fn body_json(&self) -> (r: JsonValue)
        ensures
            r@ == self.spec_body(),
    {
        let mut fields: Vec<(String, JsonValue)> = Vec::new();
        if let Some(c) = &self.chat_id {
            push_field(&mut fields, "chat_id", c.to_json());
        }
        push_field(&mut fields, "user_id", JsonValue::Int(self.user_id));
        if let Some(g) = &self.guild_id {
            push_field(&mut fields, "guild_id", JsonValue::Int(*g));
        }
        if let Some(d) = &self.until_date {
            push_field(&mut fields, "until_date", JsonValue::Int(*d as i64));
        }
        let r = JsonValue::Obj(fields);
        proof {
            assert(r@->Obj_0 =~= self.spec_fields());
        }
        r
    }

    pub fn new(bot: Arc<Bot>, guild_id: Option<i64>, chat_id: Option<ChatId>, user_id: i64) -> (r:
        Self)
        ensures
            r.bot == bot,
            r.guild_id == guild_id,
            r.chat_id == chat_id,
            r.user_id == user_id,
            r.until_date is None,
    {
        KickChatMember { bot, chat_id, user_id, until_date: None, guild_id }
    }

    /// Unique identifier for the target group or username of the target
    /// supergroup or channel (in the format `@channelusername`).
    pub fn chat_id(self, value: Option<ChatId>) -> (r: Self)
        ensures
            r == (KickChatMember { chat_id: value, ..self }),
    {
        KickChatMember { chat_id: value, ..self }
    }

    /// Unique identifier of the target user.
    pub fn user_id(self, value: i64) -> (r: Self)
        ensures
            r == (KickChatMember { user_id: value, ..self }),
    {
        KickChatMember { user_id: value, ..self }
    }

    /// Date when the user will be unbanned, in unix time. A user banned for
    /// more than 366 days or less than 30 seconds from now is banned
    /// forever.
    pub fn until_date(self, value: i32) -> (r: Self)
        ensures
            r == (KickChatMember { until_date: Some(value), ..self }),
    {
        KickChatMember { until_date: Some(value), ..self }
    }
}

impl Request for KickChatMember {
    type Output = bool;

    open spec fn spec_method(&self) -> Seq<char> {
        "kickChatMember"@
    }

    open spec fn spec_payload(&self) -> PayloadModel {
        PayloadModel::Json(spec_render(self.spec_body()))
    }

    open spec fn decode_ok(&self, body: Seq<char>, r: Result<bool, RequestError>) -> bool {
        decode_bool_ok(body, r)
    }

    fn method_name(&self) -> (m: &'static str) {
        "kickChatMember"
    }

    fn payload(&self) -> (p: Payload) {
        let body = self.body_json();
        Payload::Json(render(&body))
    }

    fn decode_response(&self, body: &str) -> (r: Result<bool, RequestError>) {
        decode_bool_response(body)
    }
}

} // verus!
