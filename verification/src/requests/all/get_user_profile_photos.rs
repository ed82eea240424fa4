//! Reading a user's profile pictures.

use vstd::prelude::*;

use std::sync::Arc;

use crate::RequestError;
use crate::bot::Bot;
use crate::json::{JsonModel, JsonValue, push_field};
use crate::jsontext::{render, spec_render};
use crate::requests::{Payload, PayloadModel, Request, decode_doc_ok, decode_doc_response};

verus! {

/// Asks for a list of profile pictures for a user.
#[derive(Debug)]
pub struct GetUserProfilePhotos {
    pub bot: Arc<Bot>,
    pub user_id: i64,
    pub offset: Option<i64>,
    pub limit: Option<i32>,
}

impl GetUserProfilePhotos {
    pub open spec fn spec_fields(self) -> Seq<(Seq<char>, JsonModel)> {
        let s0 = Seq::empty().push(("user_id"@, JsonModel::Int(self.user_id as int)));
        let s1 = match self.offset {
            Some(n) => s0.push(("offset"@, JsonModel::Int(n as int))),
            None => s0,
        };
        match self.limit {
            Some(n) => s1.push(("limit"@, JsonModel::Int(n as int))),
            None => s1,
        }
    }

    pub open spec fn spec_body(self) -> JsonModel {
        JsonModel::Obj(self.spec_fields())
    }

    pub fn body_json(&self) -> (r: JsonValue)
        ensures
            r@ == self.spec_body(),
    {
        let mut fields: Vec<(String, JsonValue)> = Vec::new();
        push_field(&mut fields, "user_id", JsonValue::Int(self.user_id));
        if let Some(n) = &self.offset {
            push_field(&mut fields, "offset", JsonValue::Int(*n));
        }
        if let Some(n) = &self.limit {
            push_field(&mut fields, "limit", JsonValue::Int(*n as i64));
        }
        let r = JsonValue::Obj(fields);
        proof {
            assert(r@->Obj_0 =~= self.spec_fields());
        }
        r
    }

    pub fn new(bot: Arc<Bot>, user_id: i64) -> (r: Self)
        ensures
            r.bot == bot,
            r.user_id == user_id,
            r.offset is None,
            r.limit is None,
    {
        GetUserProfilePhotos { bot, user_id, offset: None, limit: None }
    }

    /// Unique identifier of the target user.
    pub fn user_id(self, value: i64) -> (r: Self)
        ensures
            r == (GetUserProfilePhotos { user_id: value, ..self }),
    {
        GetUserProfilePhotos { user_id: value, ..self }
    }

    /// Sequential number of the first photo to be returned; by default all
    /// photos are returned.
    pub fn offset(self, value: i64) -> (r: Self)
        ensures
            r == (GetUserProfilePhotos { offset: Some(value), ..self }),
    {
        GetUserProfilePhotos { offset: Some(value), ..self }
    }

    /// Limits the number of photos to be retrieved, between 1 and 100;
    /// defaults to 100.
    pub fn limit(self, value: i32) -> (r: Self)
        ensures
            r == (GetUserProfilePhotos { limit: Some(value), ..self }),
    {
        GetUserProfilePhotos { limit: Some(value), ..self }
    }
}

impl Request for GetUserProfilePhotos {
    type Output = JsonValue;

    open spec fn spec_method(&self) -> Seq<char> {
        "getUserProfilePhotos"@
    }

    open spec fn spec_payload(&self) -> PayloadModel {
        PayloadModel::Json(spec_render(self.spec_body()))
    }

    open spec fn decode_ok(&self, body: Seq<char>, r: Result<JsonValue, RequestError>) -> bool {
        decode_doc_ok(body, r)
    }

    fn method_name(&self) -> (m: &'static str) {
        "getUserProfilePhotos"
    }

    fn payload(&self) -> (p: Payload) {
        let body = self.body_json();
        Payload::Json(render(&body))
    }

    fn decode_response(&self, body: &str) -> (r: Result<JsonValue, RequestError>) {
        decode_doc_response(body)
    }
}

} // verus!
