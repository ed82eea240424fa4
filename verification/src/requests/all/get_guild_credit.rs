//! Reading a user's credit records in a guild.

use vstd::prelude::*;

use std::sync::Arc;

use crate::RequestError;
use crate::bot::Bot;
use crate::json::{JsonModel, JsonValue, push_field};
use crate::jsontext::{render, spec_render};
use crate::requests::{Payload, PayloadModel, Request, decode_list_ok, decode_list_response};

verus! {

/// Asks for a user's credit records; the service answers with a list of
/// credit documents.
#[derive(Debug)]
pub struct GetGuildCredit {
    pub bot: Arc<Bot>,
    pub guild_id: Option<i64>,
    pub user_id: i64,
    pub bot_id: Option<i64>,
}

impl GetGuildCredit {
    pub open spec fn spec_fields(self) -> Seq<(Seq<char>, JsonModel)> {
        let s0 = match self.guild_id {
            Some(g) => Seq::empty().push(("guild_id"@, JsonModel::Int(g as int))),
            None => Seq::empty(),
        };
        let s1 = s0.push(("user_id"@, JsonModel::Int(self.user_id as int)));
        match self.bot_id {
            Some(b) => s1.push(("bot_id"@, JsonModel::Int(b as int))),
            None => s1,
        }
    }

    pub open spec fn spec_body(self) -> JsonModel {
        JsonModel::Obj(self.spec_fields())
    }

    pub fn body_json(&self) -> (r: JsonValue)
        ensures
            r@ == self.spec_body(),
    {
        let mut fields: Vec<(String, JsonValue)> = Vec::new();
        if let Some(g) = &self.guild_id {
            push_field(&mut fields, "guild_id", JsonValue::Int(*g));
        }
        push_field(&mut fields, "user_id", JsonValue::Int(self.user_id));
        if let Some(b) = &self.bot_id {
            push_field(&mut fields, "bot_id", JsonValue::Int(*b));
        }
        let r = JsonValue::Obj(fields);
        proof {
            assert(r@->Obj_0 =~= self.spec_fields());
        }
        r
    }

    pub fn new(bot: Arc<Bot>, bot_id: Option<i64>, guild_id: Option<i64>, user_id: i64) -> (r:
        Self)
        ensures
            r.bot == bot,
            r.bot_id == bot_id,
            r.guild_id == guild_id,
            r.user_id == user_id,
    {
        GetGuildCredit { bot, bot_id, guild_id, user_id }
    }
}

impl Request for GetGuildCredit {
    type Output = Vec<JsonValue>;

    open spec fn spec_method(&self) -> Seq<char> {
        "getCredit"@
    }

    open spec fn spec_payload(&self) -> PayloadModel {
        PayloadModel::Json(spec_render(self.spec_body()))
    }

    open spec fn decode_ok(&self, body: Seq<char>, r: Result<Vec<JsonValue>, RequestError>) -> bool {
        decode_list_ok(body, r)
    }

    fn method_name(&self) -> (m: &'static str) {
        "getCredit"
    }

    fn payload(&self) -> (p: Payload) {
        let body = self.body_json();
        Payload::Json(render(&body))
    }

    fn decode_response(&self, body: &str) -> (r: Result<Vec<JsonValue>, RequestError>) {
        decode_list_response(body)
    }
}

} // verus!
