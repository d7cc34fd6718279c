//! The authenticator: how the reply to the token request becomes an access token.

use vstd::prelude::*;
use crate::client::{token_url, Client, ClientView, GetTokenResponse};
use crate::error::Error;
use crate::reply::{body_read, classify, read_body, reply_text};
use crate::transport::{Outcome, OutcomeView};

verus! {

/// That `token` is what the reply `outcome` to the token request amounts to,
/// where `decode` reads the body of a reply with status 200.
pub open spec fn token_acquired<D: Fn(&String) -> Result<GetTokenResponse, String>>(
    client: ClientView,
    outcome: OutcomeView,
    decode: D,
    token: Result<GetTokenResponse, Error>,
) -> bool {
    match reply_text(token_url(client), None, outcome) {
        Err(error) => token matches Err(e) && e@ == error,
        Ok(text) => body_read(text, decode, token),
    }
}

impl Client {
    /// Reads the access token from the reply to [`Client::token_request`].
    ///
    /// A request that was not completed, or whose body could not be read, is a
    /// `NetworkError`; a status other than 200 is an `ApiError`. The
    /// body of a reply with status 200 is handed to `decode`: what it decodes is
    /// the token, and what it refuses is a `ParseError`.
    pub fn get_token<D: Fn(&String) -> Result<GetTokenResponse, String>>(
        &self,
        outcome: Outcome,
        decode: D,
    ) -> (token: Result<GetTokenResponse, Error>)
        requires
            forall|text: &String| decode.requires((text,)),
        ensures
            token_acquired(self@, outcome@, decode, token),
    {
        let url = self.token_url();
        match classify(url.as_str(), None, outcome) {
            Err(error) => Err(error),
            Ok(text) => read_body(&text, decode),
        }
    }
}

} // verus!
