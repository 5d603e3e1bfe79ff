//! The code-for-token exchange with the identity provider: the request to
//! send, and how its outcome is read.

use vstd::prelude::*;
use vstd::string::*;
use crate::json::{json_parsed_members, parse_document, text_member};
use crate::query::text_of;

verus! {

/// Server-held settings of the flow.
pub struct Config {
    /// The provider's client id.
    pub client_id: String,
    /// The provider's client secret.
    pub client_secret: String,
    /// The page the browser is sent to after a successful exchange.
    pub success_url: String,
    /// The bound, in seconds, on the outbound exchange.
    pub exchange_timeout_seconds: u64,
}

/// One outbound POST, form-encoded, to the provider's token endpoint.
pub struct ExchangeRequest {
    pub url: String,
    pub accept: String,
    pub form: Vec<(String, String)>,
    pub timeout_seconds: u64,
}

/// The mathematical content of an [`ExchangeRequest`].
pub struct ExchangeRequestView {
    pub url: Seq<char>,
    pub accept: Seq<char>,
    pub form: Seq<(Seq<char>, Seq<char>)>,
    pub timeout_seconds: int,
}

impl View for ExchangeRequest {
    type V = ExchangeRequestView;

    open spec fn view(&self) -> ExchangeRequestView {
        ExchangeRequestView {
            url: self.url@,
            accept: self.accept@,
            form: Seq::new(self.form@.len(), |i: int| (self.form@[i].0@, self.form@[i].1@)),
            timeout_seconds: self.timeout_seconds as int,
        }
    }
}

/// The request that exchanges `code`: the client id, the client secret and
/// the code, in that order, posted to the token endpoint with JSON accepted.
pub open spec fn exchange_request(config: Config, code: Seq<char>) -> ExchangeRequestView {
    ExchangeRequestView {
        url: "https://github.com/login/oauth/access_token"@,
        accept: "application/json"@,
        form: seq![
            ("client_id"@, config.client_id@),
            ("client_secret"@, config.client_secret@),
            ("code"@, code),
        ],
        timeout_seconds: config.exchange_timeout_seconds as int,
    }
}

/// Builds the request that exchanges `code` for a token.
pub fn build_exchange_request(config: &Config, code: String) -> (request: ExchangeRequest)
    ensures
        request@ == exchange_request(*config, code@),
{
    let mut form: Vec<(String, String)> = Vec::new();
    form.push(("client_id".to_owned(), config.client_id.clone()));
    form.push(("client_secret".to_owned(), config.client_secret.clone()));
    form.push(("code".to_owned(), code));
    let request = ExchangeRequest {
        url: "https://github.com/login/oauth/access_token".to_owned(),
        accept: "application/json".to_owned(),
        form,
        timeout_seconds: config.exchange_timeout_seconds,
    };
    assert(request@.form =~= exchange_request(*config, code@).form);
    request
}

/// What came back from the provider.
pub enum ExchangeOutcome {
    /// No reply: a network error or a timeout.
    Failed,
    /// A reply, with its HTTP status and raw body.
    Replied { status: u16, body: Vec<u8> },
}

/// Why an exchange yields no token.
#[derive(Clone, Copy, Debug, PartialEq, Eq, Structural)]
pub enum ExchangeError {
    /// No reply, or a reply with a status outside 200..=299.
    Transport,
    /// A reply that is not JSON, or that has no string member `access_token`.
    Contract,
}

/// The string member `access_token` of a JSON body, if the body is JSON and has one.
pub open spec fn access_token_in(body: Seq<u8>) -> Option<Seq<char>> {
    match json_parsed_members(body) {
        Some(members) if members.contains_key("access_token"@) => Some(members["access_token"@]),
        _ => None,
    }
}

/// Whether a status code reports success.
pub open spec fn is_success(status: int) -> bool {
    200 <= status <= 299
}

/// The token an exchange has yielded, or the reason it has yielded none.
pub open spec fn exchanged_token(outcome: ExchangeOutcome) -> Result<Seq<char>, ExchangeError> {
    match outcome {
        ExchangeOutcome::Failed => Err(ExchangeError::Transport),
        ExchangeOutcome::Replied { status, body } => if !is_success(status as int) {
            Err(ExchangeError::Transport)
        } else {
            match access_token_in(body@) {
                Some(token) => Ok(token),
                None => Err(ExchangeError::Contract),
            }
        },
    }
}

/// The view of a token or the error in its place.
pub open spec fn token_of(read: Result<String, ExchangeError>) -> Result<Seq<char>, ExchangeError> {
    match read {
        Ok(token) => Ok(token@),
        Err(error) => Err(error),
    }
}

/// Reads the access token out of a provider reply body.
pub fn read_access_token(body: &[u8]) -> (token: Option<String>)
    ensures
        text_of(token) == access_token_in(body@),
{
    match parse_document(body) {
        Ok(document) => text_member(&document, "access_token"),
        Err(_) => None,
    }
}

/// Reads the outcome of an exchange: the token, or why there is none.
pub fn read_exchange(outcome: &ExchangeOutcome) -> (read: Result<String, ExchangeError>)
    ensures
        token_of(read) == exchanged_token(*outcome),
{
    match outcome {
        ExchangeOutcome::Failed => Err(ExchangeError::Transport),
        ExchangeOutcome::Replied { status, body } => {
            if *status < 200 || *status > 299 {
                Err(ExchangeError::Transport)
            } else {
                match read_access_token(body.as_slice()) {
                    Some(token) => Ok(token),
                    None => Err(ExchangeError::Contract),
                }
            }
        },
    }
}

} // verus!
