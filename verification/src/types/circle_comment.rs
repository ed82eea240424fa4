//! A comment on a circle post.

use vstd::prelude::*;

use crate::json::{JsonModel, JsonValue, push_field};

verus! {

/// A comment on a circle post: the post, the comment, and its optional
/// text.
#[derive(Debug, Clone, PartialEq)]
pub struct CircleComment {
    pub post_id: i64,
    pub comment_id: i64,
    pub content: Option<String>,
}

/// The JSON form of a comment; an absent text travels as `null`.
pub open spec fn circle_comment_json(c: CircleComment) -> JsonModel {
    JsonModel::Obj(
        seq![
            ("post_id"@, JsonModel::Int(c.post_id as int)),
            ("comment_id"@, JsonModel::Int(c.comment_id as int)),
            (
                "content"@,
                match c.content {
                    Some(s) => JsonModel::Str(s@),
                    None => JsonModel::Null,
                },
            ),
        ],
    )
}

impl CircleComment {
    pub fn new(post_id: i64, comment_id: i64, content: Option<String>) -> (r: Self)
        ensures
            r.post_id == post_id,
            r.comment_id == comment_id,
            r.content == content,
    {
        CircleComment { post_id, comment_id, content }
    }

    pub fn to_json(&self) -> (r: JsonValue)
        ensures
            r@ == circle_comment_json(*self),
    {
        let mut fields: Vec<(String, JsonValue)> = Vec::new();
        push_field(&mut fields, "post_id", JsonValue::Int(self.post_id));
        push_field(&mut fields, "comment_id", JsonValue::Int(self.comment_id));
        let content = match &self.content {
            Some(s) => JsonValue::Str(s.clone()),
            None => JsonValue::Null,
        };
        push_field(&mut fields, "content", content);
        let r = JsonValue::Obj(fields);
        proof {
            assert(r@->Obj_0 =~= circle_comment_json(*self)->Obj_0);
        }
        r
    }
}

} // verus!
