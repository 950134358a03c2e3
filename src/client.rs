//! The client's session state, the requests it addresses to the API's
//! endpoints, and the decisions of its token lifecycle.

use vstd::prelude::*;
use crate::error::HttpError;
use crate::model::{BaseResponse, CategoryDetails, GlobalDetails, Trivia};
use crate::options::Category;
use crate::request::{copy_token, default_request_options, Request};
use crate::text::{decimal, decimal_text};

verus! {

/// The URL that issues a new session token.
pub open spec fn generate_token_endpoint() -> Seq<char> {
    "https://opentdb.com/api_token.php?command=request"@
}

/// The URL that resets a session token.
pub open spec fn reset_token_endpoint() -> Seq<char> {
    "https://opentdb.com/api_token.php?command=reset"@
}

/// The URL of the trivia endpoint, which asks for base64 text.
pub open spec fn trivia_endpoint() -> Seq<char> {
    "https://opentdb.com/api.php?encode=base64"@
}

/// The URL of the question counts of the category with id `id`.
pub open spec fn category_details_endpoint(id: u8) -> Seq<char> {
    "https://opentdb.com/api_count.php?category="@ + decimal(id as nat)
}

/// The URL of the statistics of the whole API.
pub open spec fn global_details_endpoint() -> Seq<char> {
    "https://opentdb.com/api_count_global.php"@
}

/// The body of a token response.
#[derive(Debug)]
pub struct TokenResponse {
    /// The token issued or reset.
    pub token: String,
}

/// A client's session state: the token it sends with its requests.
#[derive(Debug, Clone)]
pub struct Client {
    token: Option<String>,
}

impl View for Client {
    type V = Option<Seq<char>>;

    closed spec fn view(&self) -> Option<Seq<char>> {
        self.token.deep_view()
    }
}

impl Default for Client {
    fn default() -> (r: Self)
        ensures
            r@ is None,
    {
        Client::new()
    }
}

/// The request that resetting the token of a client with token `token`
/// goes to: the reset endpoint where it has a token, else the endpoint that
/// issues one.
pub open spec fn reset_endpoint_for(token: Option<Seq<char>>) -> Seq<char> {
    if token is Some {
        reset_token_endpoint()
    } else {
        generate_token_endpoint()
    }
}

/// The client's token after a reset with `outcome`: a client without a token
/// stores the token that was issued; a client with one keeps it.
pub open spec fn token_after_reset(
    token: Option<Seq<char>>,
    outcome: Result<String, HttpError>,
) -> Option<Seq<char>> {
    match (token, outcome) {
        (None, Ok(t)) => Some(t@),
        _ => token,
    }
}

impl Client {
    /// A client without a token.
    pub fn new() -> (r: Self)
        ensures
            r@ is None,
    {
        Client { token: None }
    }

    /// Sets the token sent with later requests.
    pub fn set_token(&mut self, token: &str)
        ensures
            final(self)@ == Some(token@),
    {
        self.token = Some(String::from_str(token));
    }

    /// The client's token, if it has one.
    pub fn get_token(&self) -> (r: Option<String>)
        ensures
            r.deep_view() == self@,
    {
        copy_token(&self.token)
    }

    /// The request that issues a new token. It carries the client's token,
    /// if any; the token it returns is not stored.
    pub fn generate_token(&self) -> (r: Request<TokenResponse>)
        ensures
            r.endpoint@ == generate_token_endpoint(),
            r.token.deep_view() == self@,
            r.options@ == default_request_options(),
    {
        Request::new(
            copy_token(&self.token),
            String::from_str("https://opentdb.com/api_token.php?command=request"),
        )
    }

    /// A request for trivia questions, carrying the client's token.
    pub fn trivia(&self) -> (r: Request<BaseResponse<Vec<Trivia>>>)
        ensures
            r.endpoint@ == trivia_endpoint(),
            r.token.deep_view() == self@,
            r.options@ == default_request_options(),
    {
        Request::new(
            copy_token(&self.token),
            String::from_str("https://opentdb.com/api.php?encode=base64"),
        )
    }

    /// A request for the question counts of `category`; it carries no token.
    pub fn category_details(&self, category: Category) -> (r: Request<CategoryDetails>)
        ensures
            r.endpoint@ == category_details_endpoint(category.spec_id()),
            r.token is None,
            r.options@ == default_request_options(),
    {
        let mut endpoint = String::from_str("https://opentdb.com/api_count.php?category=");
        let id = decimal_text(category.id());
        endpoint.append(id.as_str());
        Request::new(None, endpoint)
    }

    /// A request for the statistics of the whole API; it carries no token.
    pub fn global_details(&self) -> (r: Request<GlobalDetails>)
        ensures
            r.endpoint@ == global_details_endpoint(),
            r.token is None,
            r.options@ == default_request_options(),
    {
        Request::new(None, String::from_str("https://opentdb.com/api_count_global.php"))
    }

    /// A request to any endpoint, decoded as `T`, carrying the client's token.
    pub fn new_request<T>(&self, endpoint: &str) -> (r: Request<T>)
        ensures
            r.endpoint@ == endpoint@,
            r.token.deep_view() == self@,
            r.options@ == default_request_options(),
    {
        Request::new(copy_token(&self.token), String::from_str(endpoint))
    }

    /// The request that resetting the token sends: to the reset endpoint where
    /// the client has a token, else to the endpoint that issues one.
    pub fn reset_token(&self) -> (r: Request<TokenResponse>)
        ensures
            r.endpoint@ == reset_endpoint_for(self@),
            r.token.deep_view() == self@,
            r.options@ == default_request_options(),
    {
        if self.token.is_some() {
            Request::new(
                copy_token(&self.token),
                String::from_str("https://opentdb.com/api_token.php?command=reset"),
            )
        } else {
            self.generate_token()
        }
    }

    /// Takes the outcome of the reset request and returns it. A client that
    /// had no token stores the token that was issued; one that had a token
    /// keeps it, whatever came back.
    pub fn finish_reset_token(&mut self, outcome: Result<String, HttpError>) -> (r: Result<
        String,
        HttpError,
    >)
        ensures
            r == outcome,
            final(self)@ == token_after_reset(old(self)@, outcome),
    {
        match outcome {
            Ok(t) => {
                if self.token.is_none() {
                    self.token = Some(t.clone());
                }
                Ok(t)
            },
            Err(e) => Err(e),
        }
    }
}

/// Resetting the token of a client without one sends the request that
/// generating a token sends and then stores the issued token, as setting it
/// would; a client with a token keeps it, whatever the reset returns.
pub proof fn lemma_reset_token(token: Option<Seq<char>>, outcome: Result<String, HttpError>)
    ensures
        token is None ==> reset_endpoint_for(token) == generate_token_endpoint(),
        token is None ==> token_after_reset(token, outcome) == match outcome {
            Ok(t) => Some(t@),
            Err(_) => None,
        },
        token is Some ==> token_after_reset(token, outcome) == token,
{
}

} // verus!
