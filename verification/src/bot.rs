//! The shared capability that authorizes and carries every request: the
//! bot's token and the HTTP client. It is handed around read-only behind an
//! `Arc`; no request mutates it.

use vstd::prelude::*;

use std::sync::Arc;

verus! {

/// Declares `reqwest::Client` so a bot can hold its HTTP client. The
/// client is opaque here: this crate only stores and hands it out; every
/// call through it is made outside the verified library.
#[verifier::external_type_specification]
#[verifier::external_body]
pub struct ExClient(reqwest::Client);

/// A bot used to send requests: its token and the HTTP client that all of
/// its requests share.
#[derive(Debug)]
pub struct Bot {
    token: String,
    client: reqwest::Client,
}

impl Bot {
    /// The token this bot authorizes its calls with.
    pub closed spec fn spec_token(&self) -> Seq<char> {
        self.token@
    }

    /// The HTTP client this bot's requests share.
    pub closed spec fn spec_client(&self) -> reqwest::Client {
        self.client
    }

    /// Creates a new `Bot` with the specified token and HTTP client: a
    /// fresh shared handle holding exactly that token and that client.
    pub fn with_client(token: &str, client: reqwest::Client) -> (r: Arc<Self>)
        ensures
            r.spec_token() == token@,
            r.spec_client() == client,
    {
        Arc::new(Bot { token: token.to_owned(), client })
    }

    pub fn token(&self) -> (r: &str)
        ensures
            r@ == self.spec_token(),
    {
        self.token.as_str()
    }

    pub fn client(&self) -> (r: &reqwest::Client)
        ensures
            *r == self.spec_client(),
    {
        &self.client
    }
}

} // verus!
