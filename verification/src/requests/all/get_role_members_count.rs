//! Reading the member count of one role in a guild.

use vstd::prelude::*;

use std::sync::Arc;

use crate::RequestError;
use crate::bot::Bot;
use crate::json::{JsonModel, JsonValue, push_field};
use crate::jsontext::{render, spec_render};
use crate::requests::{Payload, PayloadModel, Request, decode_int_ok, decode_int_response};

verus! {

/// Asks for the number of members holding a role in a guild.
#[derive(Debug)]
pub struct GetRoleMembersCount {
    pub bot: Arc<Bot>,
    pub guild_id: i64,
    pub role_id: i64,
}

impl GetRoleMembersCount {
    pub open spec fn spec_fields(self) -> Seq<(Seq<char>, JsonModel)> {
        Seq::empty().push(("guild_id"@, JsonModel::Int(self.guild_id as int))).push(
            ("role_id"@, JsonModel::Int(self.role_id as int)),
        )
    }

    pub open spec fn spec_body(self) -> JsonModel {
        JsonModel::Obj(self.spec_fields())
    }

    pub fn body_json(&self) -> (r: JsonValue)
        ensures
            r@ == self.spec_body(),
    {
        let mut fields: Vec<(String, JsonValue)> = Vec::new();
        push_field(&mut fields, "guild_id", JsonValue::Int(self.guild_id));
        push_field(&mut fields, "role_id", JsonValue::Int(self.role_id));
        let r = JsonValue::Obj(fields);
        proof {
            assert(r@->Obj_0 =~= self.spec_fields());
        }
        r
    }

    pub fn new(bot: Arc<Bot>, guild_id: i64, role_id: i64) -> (r: Self)
        ensures
            r.bot == bot,
            r.guild_id == guild_id,
            r.role_id == role_id,
    {
        GetRoleMembersCount { bot, guild_id, role_id }
    }
}

impl Request for GetRoleMembersCount {
    type Output = i64;

    open spec fn spec_method(&self) -> Seq<char> {
        "getRoleMembersCount"@
    }

    open spec fn spec_payload(&self) -> PayloadModel {
        PayloadModel::Json(spec_render(self.spec_body()))
    }

    open spec fn decode_ok(&self, body: Seq<char>, r: Result<i64, RequestError>) -> bool {
        decode_int_ok(body, r)
    }

    fn method_name(&self) -> (m: &'static str) {
        "getRoleMembersCount"
    }

    fn payload(&self) -> (p: Payload) {
        let body = self.body_json();
        Payload::Json(render(&body))
    }

    fn decode_response(&self, body: &str) -> (r: Result<i64, RequestError>) {
        decode_int_response(body)
    }
}

} // verus!
