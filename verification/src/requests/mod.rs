//! The uniform request contract, its two transport payloads, and the
//! shared decoders for the response shapes the endpoints use.

use vstd::prelude::*;

use crate::RequestError;
use crate::RequestErrorModel;
use crate::json::{JsonModel, JsonValue, json_model, json_model_seq, lemma_json_model_seq};
use crate::jsontext::parsed_doc;
use crate::net::{decode_envelope_text, envelope_outcome};

pub mod all;
pub mod form_builder;

use form_builder::{MultipartForm, PartModel};

verus! {

/// The outcome of sending a request.
pub type ResponseResult<T> = Result<T, RequestError>;

/// The body a request dispatches: a JSON document or a multipart form.
/// Exactly one is produced per send, never both.
#[derive(Debug)]
pub enum Payload {
    Json(String),
    Multipart(MultipartForm),
}

/// The mathematical value of a [`Payload`].
pub ghost enum PayloadModel {
    Json(Seq<char>),
    Multipart(Seq<PartModel>),
}

impl View for Payload {
    type V = PayloadModel;

    open spec fn view(&self) -> PayloadModel {
        match self {
            Payload::Json(s) => PayloadModel::Json(s@),
            Payload::Multipart(f) => PayloadModel::Multipart(f.parts.deep_view()),
        }
    }
}

/// The uniform contract every per-endpoint builder implements: a method
/// name, a payload under one fixed transport strategy, and a decoder for
/// the operation's response body. The caller performs the one network call
/// between `payload` and `decode_response`.
pub trait Request {
    /// The operation's decoded success value.
    type Output;

    /// The remote operation's name.
    spec fn spec_method(&self) -> Seq<char>;

    /// The payload this request dispatches.
    spec fn spec_payload(&self) -> PayloadModel;

    /// What the decoded outcome must be for a given response body.
    spec fn decode_ok(&self, body: Seq<char>, r: Result<Self::Output, RequestError>) -> bool;

    fn method_name(&self) -> (m: &'static str)
        ensures
            m@ == self.spec_method(),
    ;

    fn payload(&self) -> (p: Payload)
        ensures
            p@ == self.spec_payload(),
    ;

    fn decode_response(&self, body: &str) -> (r: ResponseResult<Self::Output>)
        ensures
            self.decode_ok(body@, r),
    ;
}

/// The decoded outcome for an operation whose success value is one JSON
/// document: the envelope's `result` payload as it stands.
pub open spec fn decode_doc_ok(body: Seq<char>, r: Result<JsonValue, RequestError>) -> bool {
    match parsed_doc(body) {
        Some(m) => match envelope_outcome(m) {
            Ok(payload) => r matches Ok(out) && out@ == payload,
            Err(e) => r matches Err(err) && err@ == e,
        },
        None => r matches Err(err) && err@ == RequestErrorModel::Shape(
            ("response body is not JSON")@,
        ),
    }
}

/// Decodes a response whose success value is one JSON document.
pub fn decode_doc_response(body: &str) -> (r: ResponseResult<JsonValue>)
    ensures
        decode_doc_ok(body@, r),
{
    decode_envelope_text(body)
}

/// The decoded outcome for an acknowledgement operation: the envelope's
/// `result` must be a boolean.
pub open spec fn decode_bool_ok(body: Seq<char>, r: Result<bool, RequestError>) -> bool {
    match parsed_doc(body) {
        Some(m) => match envelope_outcome(m) {
            Ok(payload) => match payload {
                JsonModel::Bool(b) => r matches Ok(out) && out == b,
                _ => r matches Err(err) && err@ == RequestErrorModel::Shape(
                    ("result is not a boolean")@,
                ),
            },
            Err(e) => r matches Err(err) && err@ == e,
        },
        None => r matches Err(err) && err@ == RequestErrorModel::Shape(
            ("response body is not JSON")@,
        ),
    }
}

/// Decodes a response whose success value is a boolean acknowledgement.
pub fn decode_bool_response(body: &str) -> (r: ResponseResult<bool>)
    ensures
        decode_bool_ok(body@, r),
{
    match decode_envelope_text(body) {
        Ok(payload) => match payload {
            JsonValue::Bool(b) => Ok(b),
            _ => Err(RequestError::Shape("result is not a boolean".to_owned())),
        },
        Err(e) => Err(e),
    }
}

/// The decoded outcome for a counting operation: the envelope's `result`
/// must be an integer.
pub open spec fn decode_int_ok(body: Seq<char>, r: Result<i64, RequestError>) -> bool {
    match parsed_doc(body) {
        Some(m) => match envelope_outcome(m) {
            Ok(payload) => match payload {
                JsonModel::Int(i) => r matches Ok(out) && out as int == i,
                _ => r matches Err(err) && err@ == RequestErrorModel::Shape(
                    ("result is not an integer")@,
                ),
            },
            Err(e) => r matches Err(err) && err@ == e,
        },
        None => r matches Err(err) && err@ == RequestErrorModel::Shape(
            ("response body is not JSON")@,
        ),
    }
}

/// Decodes a response whose success value is an integer.
pub fn decode_int_response(body: &str) -> (r: ResponseResult<i64>)
    ensures
        decode_int_ok(body@, r),
{
    match decode_envelope_text(body) {
        Ok(payload) => match payload {
            JsonValue::Int(i) => Ok(i),
            _ => Err(RequestError::Shape("result is not an integer".to_owned())),
        },
        Err(e) => Err(e),
    }
}

/// The decoded outcome for an operation whose success value is a list of
/// JSON documents: the envelope's `result` must be an array, and every
/// element is kept in order.
pub open spec fn decode_list_ok(body: Seq<char>, r: Result<Vec<JsonValue>, RequestError>) -> bool {
    match parsed_doc(body) {
        Some(m) => match envelope_outcome(m) {
            Ok(payload) => match payload {
                JsonModel::Arr(elems) => r matches Ok(out) && json_model_seq(out@) == elems,
                _ => r matches Err(err) && err@ == RequestErrorModel::Shape(
                    ("result is not an array")@,
                ),
            },
            Err(e) => r matches Err(err) && err@ == e,
        },
        None => r matches Err(err) && err@ == RequestErrorModel::Shape(
            ("response body is not JSON")@,
        ),
    }
}

/// Decodes a response whose success value is a list of JSON documents.
pub fn decode_list_response(body: &str) -> (r: ResponseResult<Vec<JsonValue>>)
    ensures
        decode_list_ok(body@, r),
{
    match decode_envelope_text(body) {
        Ok(payload) => match payload {
            JsonValue::Arr(elems) => {
                proof {
                    lemma_json_model_seq(elems@);
                }
                Ok(elems)
            },
            _ => Err(RequestError::Shape("result is not an array".to_owned())),
        },
        Err(e) => Err(e),
    }
}

} // verus!
