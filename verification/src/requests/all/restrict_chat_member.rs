//! Restricting a member's permissions in a supergroup.

use vstd::prelude::*;

use std::sync::Arc;

use crate::RequestError;
use crate::bot::Bot;
use crate::json::{JsonModel, JsonValue, push_field};
use crate::jsontext::{render, spec_render};
use crate::requests::{Payload, PayloadModel, Request, decode_bool_ok, decode_bool_response};
use crate::types::{ChatId, ChatPermissions, chat_id_json};

verus! {

/// Restricts a user in a supergroup; pass `true` for every permission to
/// lift the restrictions. The service acknowledges with a boolean.
#[derive(Debug)]
pub struct RestrictChatMember {
    pub bot: Arc<Bot>,
    pub chat_id: ChatId,
    pub user_id: i64,
    pub permissions: ChatPermissions,
    pub until_date: Option<i32>,
}

impl RestrictChatMember {
    pub open spec fn spec_fields(self) -> Seq<(Seq<char>, JsonModel)> {
        let s0 = Seq::empty().push(("chat_id"@, chat_id_json(self.chat_id@))).push(
            ("user_id"@, JsonModel::Int(self.user_id as int)),
        ).push(("permissions"@, self.permissions@));
        match self.until_date {
            Some(d) => s0.push(("until_date"@, JsonModel::Int(d as int))),
            None => s0,
        }
    }

    pub open spec fn spec_body(self) -> JsonModel {
        JsonModel::Obj(self.spec_fields())
    }

    pub fn body_json(&self) -> (r: JsonValue)
        ensures
            r@ == self.spec_body(),
    {
        let mut fields: Vec<(String, JsonValue)> = Vec::new();
        push_field(&mut fields, "chat_id", self.chat_id.to_json());
        push_field(&mut fields, "user_id", JsonValue::Int(self.user_id));
        push_field(&mut fields, "permissions", self.permissions.doc.deep_copy());
        if let Some(d) = &self.until_date {
            push_field(&mut fields, "until_date", JsonValue::Int(*d as i64));
        }
        let r = JsonValue::Obj(fields);
        proof {
            assert(r@->Obj_0 =~= self.spec_fields());
        }
        r
    }

    pub fn new(bot: Arc<Bot>, chat_id: ChatId, user_id: i64, permissions: ChatPermissions) -> (r:
        Self)
        ensures
            r.bot == bot,
            r.chat_id == chat_id,
            r.user_id == user_id,
            r.permissions == permissions,
            r.until_date is None,
    {
        RestrictChatMember { bot, chat_id, user_id, permissions, until_date: None }
    }

    /// Unique identifier for the target chat or username of the target
    /// supergroup (in the format `@supergroupusername`).
    pub fn chat_id(self, value: ChatId) -> (r: Self)
        ensures
            r == (RestrictChatMember { chat_id: value, ..self }),
    {
        RestrictChatMember { chat_id: value, ..self }
    }

    /// Unique identifier of the target user.
    pub fn user_id(self, value: i64) -> (r: Self)
        ensures
            r == (RestrictChatMember { user_id: value, ..self }),
    {
        RestrictChatMember { user_id: value, ..self }
    }

    /// New user permissions.
    pub fn permissions(self, value: ChatPermissions) -> (r: Self)
        ensures
            r == (RestrictChatMember { permissions: value, ..self }),
    {
        RestrictChatMember { permissions: value, ..self }
    }

    /// Date when the restrictions are lifted, in unix time. A user
    /// restricted for more than 366 days or less than 30 seconds from now
    /// is restricted forever.
    pub fn until_date(self, value: i32) -> (r: Self)
        ensures
            r == (RestrictChatMember { until_date: Some(value), ..self }),
    {
        RestrictChatMember { until_date: Some(value), ..self }
    }
}

impl Request for RestrictChatMember {
    type Output = bool;

    open spec fn spec_method(&self) -> Seq<char> {
        "restrictChatMember"@
    }

    open spec fn spec_payload(&self) -> PayloadModel {
        PayloadModel::Json(spec_render(self.spec_body()))
    }

    open spec fn decode_ok(&self, body: Seq<char>, r: Result<bool, RequestError>) -> bool {
        decode_bool_ok(body, r)
    }

    fn method_name(&self) -> (m: &'static str) {
        "restrictChatMember"
    }

    fn payload(&self) -> (p: Payload) {
        let body = self.body_json();
        Payload::Json(render(&body))
    }

    fn decode_response(&self, body: &str) -> (r: Result<bool, RequestError>) {
        decode_bool_response(body)
    }
}

} // verus!
