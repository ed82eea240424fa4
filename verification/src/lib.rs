//! A typed client for a remote bot-messaging HTTP API.
//!
//! Each remote operation is exposed as a builder-style request object that
//! accumulates optional parameters. A configured request is turned into a
//! transport payload (a JSON body or a multipart form), and the wire response
//! envelope is decoded into a typed success value or a structured failure.
//! The network call itself is left to the caller; this crate covers the
//! encoding and decoding around it.

use vstd::prelude::*;

pub mod bot;
pub mod json;
pub mod jsontext;
pub mod net;
pub mod numtext;
pub mod requests;
pub mod types;

pub use bot::Bot;

verus! {

/// The ways a remote operation can fail, apart from a network fault.
#[derive(Debug, Clone, PartialEq, Eq)]
pub enum RequestError {
    /// The connection failed, timed out, or the body never arrived whole.
    /// Only the code that performs the network call constructs this variant.
    Transport(String),
    /// The service answered with a failure envelope.
    Api { description: String, error_code: Option<i64>, retry_after: Option<i64> },
    /// The response body violated the expected top-level shape.
    Shape(String),
}

/// The mathematical value of a [`RequestError`].
pub ghost enum RequestErrorModel {
    Transport(Seq<char>),
    Api { description: Seq<char>, error_code: Option<int>, retry_after: Option<int> },
    Shape(Seq<char>),
}

impl View for RequestError {
    type V = RequestErrorModel;

    open spec fn view(&self) -> RequestErrorModel {
        match self {
            RequestError::Transport(s) => RequestErrorModel::Transport(s@),
            RequestError::Api { description, error_code, retry_after } => RequestErrorModel::Api {
                description: description@,
                error_code: match error_code {
                    Some(c) => Some(*c as int),
                    None => None,
                },
                retry_after: match retry_after {
                    Some(r) => Some(*r as int),
                    None => None,
                },
            },
            RequestError::Shape(s) => RequestErrorModel::Shape(s@),
        }
    }
}

impl RequestError {
    /// A short text for diagnostics; the crate's types carry no `Display`.
    pub fn describe(&self) -> (r: String)
        ensures
            r@ == match self@ {
                RequestErrorModel::Transport(s) => s,
                RequestErrorModel::Api { description, .. } => description,
                RequestErrorModel::Shape(s) => s,
            },
    {
        match self {
            RequestError::Transport(s) => s.clone(),
            RequestError::Api { description, .. } => description.clone(),
            RequestError::Shape(s) => s.clone(),
        }
    }
}

} // verus!
