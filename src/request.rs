//! A request to one endpoint, the query it carries, and how the status and
//! body of its response decide its outcome.

use std::marker::PhantomData;
use vstd::prelude::*;
use crate::error::{DecodingError, HttpError};
use crate::options::{pairs_view, push_pair, Options, OptionsView, QueryPair};

verus! {

/// A request to one endpoint, expecting a response of type `T`.
#[derive(Debug)]
pub struct Request<T> {
    /// The URL of the endpoint, with any query it fixes itself.
    pub endpoint: String,
    /// The session token sent with the request, if any.
    pub token: Option<String>,
    /// The options of the request.
    pub options: Options,
    /// The type of the decoded response.
    pub response: PhantomData<T>,
}

/// The options of a new request: ten questions, nothing else.
pub open spec fn default_request_options() -> OptionsView {
    OptionsView { question_number: Some(10), category: None, difficulty: None, kind: None }
}

/// The `token` parameter of a token, where there is one.
pub open spec fn token_part(token: Option<Seq<char>>) -> Seq<(Seq<char>, Seq<char>)> {
    match token {
        Some(t) => seq![("token"@, t)],
        None => Seq::empty(),
    }
}

/// A copy of an optional string.
pub fn copy_token(token: &Option<String>) -> (r: Option<String>)
    ensures
        r.deep_view() == token.deep_view(),
{
    match token {
        Some(t) => Some(t.clone()),
        None => None,
    }
}

impl<T> Request<T> {
    /// A request to `endpoint` carrying `token`, with the question count set to 10.
    pub fn new(token: Option<String>, endpoint: String) -> (r: Self)
        ensures
            r.endpoint@ == endpoint@,
            r.token.deep_view() == token.deep_view(),
            r.options@ == default_request_options(),
    {
        let mut options = Options::new();
        let _ = options.question_number(10);
        Request { endpoint, token, options, response: PhantomData }
    }

    /// Appends the request's parameters to `query`: the token first, where
    /// there is one, then the options, which are consumed.
    pub fn prepare(&mut self, query: &mut Vec<QueryPair>)
        ensures
            pairs_view(final(query)@) == pairs_view(old(query)@) + token_part(
                old(self).token.deep_view(),
            ) + old(self).options@.query(),
            final(self).options@.is_empty(),
            final(self).endpoint == old(self).endpoint,
            final(self).token == old(self).token,
    {
        let ghost start = pairs_view(query@);
        match &self.token {
            Some(t) => push_pair(query, "token", t.clone()),
            None => {},
        }
        assert(pairs_view(query@) =~= start + token_part(self.token.deep_view()));
        self.options.prepare(query);
    }
}

/// How the body of a response is to be read.
#[derive(Debug, Clone, Copy, PartialEq, Eq, Structural)]
pub enum BodyKind {
    /// As JSON of the expected type.
    Json,
    /// As plain text, for the error.
    Text,
}

/// How the body of a response with `status` is to be read: as JSON exactly
/// when the status is 200.
pub fn body_kind(status: u16) -> (r: BodyKind)
    ensures
        (r == BodyKind::Json) == (status == 200),
{
    if status == 200 {
        BodyKind::Json
    } else {
        BodyKind::Text
    }
}

/// The body of a response, read as its status asks.
#[derive(Debug)]
pub enum ResponseBody<T> {
    /// The body decoded as JSON, or why it could not be.
    Json(Result<T, DecodingError>),
    /// The body as text.
    Text(String),
}

/// The outcome of a request from the status and body of its response: a 200
/// gives the decoded value or the decoding error; 500 and above an internal
/// server error with the text; any other status an unsuccessful request with
/// the status and the text.
pub fn classify_response<T>(status: u16, body: ResponseBody<T>) -> (r: Result<T, HttpError>)
    requires
        (body is Json) == (status == 200),
    ensures
        match body {
            ResponseBody::Json(Ok(v)) => r == Ok::<T, HttpError>(v),
            ResponseBody::Json(Err(e)) => r == Err::<T, HttpError>(HttpError::Decode(e)),
            ResponseBody::Text(t) => if status >= 500 {
                r == Err::<T, HttpError>(HttpError::InternalServerError(t))
            } else {
                r == Err::<T, HttpError>(HttpError::UnsuccessfulRequest(status, t))
            },
        },
{
    match body {
        ResponseBody::Json(Ok(v)) => Ok(v),
        ResponseBody::Json(Err(e)) => Err(HttpError::Decode(e)),
        ResponseBody::Text(t) => if status >= 500 {
            Err(HttpError::InternalServerError(t))
        } else {
            Err(HttpError::UnsuccessfulRequest(status, t))
        },
    }
}

} // verus!
