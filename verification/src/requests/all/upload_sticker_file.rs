//! Uploading a sticker file for later use.

use vstd::prelude::*;

use std::sync::Arc;

use crate::RequestError;
use crate::bot::Bot;
use crate::json::JsonValue;
use crate::requests::form_builder::{FormBuilder, PartModel, form_step};
use crate::requests::{Payload, PayloadModel, Request, decode_doc_ok, decode_doc_response};
use crate::types::InputFile;
use vstd::pervasive::unreached;

verus! {

/// Uploads a .png sticker file for later use in sticker sets (can be used
/// multiple times). The sticker may carry raw file bytes, so the request
/// travels as a multipart form: a path- or buffer-backed sticker becomes a
/// named file part, a URL- or identifier-backed one a plain text part. The
/// service answers with the stored file's document.
#[derive(Debug)]
pub struct UploadStickerFile {
    pub bot: Arc<Bot>,
    pub user_id: i64,
    pub png_sticker: InputFile,
}

impl UploadStickerFile {
    /// The parts of this request's multipart form, in declaration order.
    pub open spec fn spec_form(self) -> Seq<PartModel> {
        let s0 = form_step(Seq::empty(), "user_id"@, self.user_id);
        form_step(s0, "png_sticker"@, self.png_sticker)
    }

    pub fn new(bot: Arc<Bot>, user_id: i64, png_sticker: InputFile) -> (r: Self)
        ensures
            r.bot == bot,
            r.user_id == user_id,
            r.png_sticker == png_sticker,
    {
        UploadStickerFile { bot, user_id, png_sticker }
    }

    /// User identifier of the sticker file's owner.
    pub fn user_id(self, value: i64) -> (r: Self)
        ensures
            r == (UploadStickerFile { user_id: value, ..self }),
    {
        UploadStickerFile { user_id: value, ..self }
    }

    /// Png image with the sticker, up to 512 kilobytes in size, dimensions
    /// not exceeding 512px, and either width or height exactly 512px.
    pub fn png_sticker(self, value: InputFile) -> (r: Self)
        ensures
            r == (UploadStickerFile { png_sticker: value, ..self }),
    {
        UploadStickerFile { png_sticker: value, ..self }
    }
}

impl Request for UploadStickerFile {
    type Output = JsonValue;

    open spec fn spec_method(&self) -> Seq<char> {
        "uploadStickerFile"@
    }

    open spec fn spec_payload(&self) -> PayloadModel {
        PayloadModel::Multipart(self.spec_form())
    }

    open spec fn decode_ok(&self, body: Seq<char>, r: Result<JsonValue, RequestError>) -> bool {
        decode_doc_ok(body, r)
    }

    fn method_name(&self) -> (m: &'static str) {
        "uploadStickerFile"
    }

    fn payload(&self) -> (p: Payload) {
        let mut builder = FormBuilder::new().add("user_id", &self.user_id).add(
            "png_sticker",
            &self.png_sticker,
        );
        match builder.build() {
            Some(form) => Payload::Multipart(form),
            None => unreached(),
        }
    }

    fn decode_response(&self, body: &str) -> (r: Result<JsonValue, RequestError>) {
        decode_doc_response(body)
    }
}

} // verus!
