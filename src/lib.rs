//! A client library for the Open Trivia Database: query options, wire
//! encodings of its enumerations, response decoding and the decisions of the
//! request pipeline, each stated and proved. Sending requests is left to the
//! caller's transport, which hands back statuses and bodies as plain values.

pub mod client;
pub mod endpoints;
pub mod error;
pub mod model;
pub mod options;
pub mod request;
pub mod text;

pub use crate::client::{Client, TokenResponse};
pub use crate::endpoints::EndPointOptions;
pub use crate::error::{DecodingError, HttpError};
pub use crate::model::{
    BaseResponse, CategoryDetails, GlobalDetail, GlobalDetails, QuestionCount, RawTrivia,
    ResponseCode, Trivia,
};
pub use crate::options::{Category, Difficulty, Kind, Options, OptionsView, QueryPair};
pub use crate::request::{body_kind, classify_response, BodyKind, Request, ResponseBody};
