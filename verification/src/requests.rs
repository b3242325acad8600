//! One authenticated call, as data: the request to send and the
//! classification of what came back.

use crate::json::{describe_fault, fault_text, parse_json, parsed_json};
pub use crate::json::Json;
use serde_json::Error as JsonFault;
use crate::openai::{sent_organization, OpenAI, OpenAIView};
use vstd::prelude::*;
use vstd::string::*;

verus! {

pub type ApiResult<T> = Result<T, Error>;

/// Why a call gave no document.
#[derive(Debug)]
pub enum Error {
    /// The service reported a structured error.
    ApiError(String),
    /// The transport failed, or the body was no JSON document.
    RequestError(String),
}

pub enum ErrorView {
    ApiError(Seq<char>),
    RequestError(Seq<char>),
}

impl View for Error {
    type V = ErrorView;

    open spec fn view(&self) -> ErrorView {
        match *self {
            Error::ApiError(m) => ErrorView::ApiError(m@),
            Error::RequestError(m) => ErrorView::RequestError(m@),
        }
    }
}

impl Error {
    /// The text carried by either variant.
    pub fn message(&self) -> (r: &str)
        ensures
            r@ == match self@ {
                ErrorView::ApiError(m) => m,
                ErrorView::RequestError(m) => m,
            },
    {
        match self {
            Error::ApiError(m) => m.as_str(),
            Error::RequestError(m) => m.as_str(),
        }
    }
}

/// A call's result with the error taken by its view.
pub open spec fn result_view(r: ApiResult<Json>) -> Result<Json, ErrorView> {
    match r {
        Ok(document) => Ok(document),
        Err(e) => Err(e@),
    }
}

#[derive(Debug, Clone, Copy, PartialEq, Eq, Structural)]
pub enum Method {
    Get,
    Post,
}

/// One header line.
#[derive(Debug)]
pub struct Header {
    pub name: String,
    pub value: String,
}

impl View for Header {
    type V = (Seq<char>, Seq<char>);

    open spec fn view(&self) -> (Seq<char>, Seq<char>) {
        (self.name@, self.value@)
    }
}

/// A request ready to be sent, with nothing left to decide.
#[derive(Debug)]
pub struct Request {
    pub method: Method,
    pub url: String,
    pub headers: Vec<Header>,
    pub body: Option<Json>,
}

pub struct RequestView {
    pub method: Method,
    pub url: Seq<char>,
    pub headers: Seq<(Seq<char>, Seq<char>)>,
    pub body: Option<Json>,
}

impl View for Request {
    type V = RequestView;

    open spec fn view(&self) -> RequestView {
        RequestView {
            method: self.method,
            url: self.url@,
            headers: Seq::new(self.headers@.len(), |i: int| self.headers@[i]@),
            body: self.body,
        }
    }
}

/// What the sender hands back: the body text of a successful response, or
/// the description of whatever went wrong on the way.
#[derive(Debug)]
pub enum Reply {
    Body(String),
    Failure(String),
}

pub enum ReplyView {
    Body(Seq<char>),
    Failure(Seq<char>),
}

impl View for Reply {
    type V = ReplyView;

    open spec fn view(&self) -> ReplyView {
        match *self {
            Reply::Body(t) => ReplyView::Body(t@),
            Reply::Failure(t) => ReplyView::Failure(t@),
        }
    }
}

/// The three headers of every call, in the order they are set.
pub open spec fn spec_headers(client: OpenAIView) -> Seq<(Seq<char>, Seq<char>)> {
    seq![
        ("Content-Type"@, "application/json"@),
        ("OpenAI-Organization"@, sent_organization(client.auth)),
        ("Authorization"@, "Bearer "@ + client.auth.api_key),
    ]
}

/// The request that a call of `method` on `sub_url` sends.
pub open spec fn spec_request(
    client: OpenAIView,
    method: Method,
    sub_url: Seq<char>,
    body: Option<Json>,
) -> RequestView {
    RequestView { method, url: client.api_url + sub_url, headers: spec_headers(client), body }
}

/// How a parse of a response body is reported to the caller.
pub open spec fn spec_checked(parse: Result<Json, JsonFault>) -> Result<Json, ErrorView> {
    match parse {
        Ok(document) => Ok(document),
        Err(fault) => Err(ErrorView::RequestError(fault_text(fault))),
    }
}

/// How a reply is reported to the caller.
pub open spec fn spec_receive(reply: ReplyView) -> Result<Json, ErrorView> {
    match reply {
        ReplyView::Body(text) => spec_checked(parsed_json(text)),
        ReplyView::Failure(detail) => Err(ErrorView::RequestError(detail)),
    }
}

/// Turns the outcome of a parse into the call's result: the document as it
/// is, or a `RequestError` that carries the parser's own words.
pub fn checked_json(parse: Result<Json, JsonFault>) -> (r: ApiResult<Json>)
    ensures
        result_view(r) == spec_checked(parse),
{
    match parse {
        Ok(document) => Ok(document),
        Err(fault) => Err(Error::RequestError(describe_fault(&fault))),
    }
}

/// Decodes a response body. A body that is no JSON document is a
/// `RequestError`, never a crash.
pub fn decode_body(text: &str) -> (r: ApiResult<Json>)
    ensures
        result_view(r) == spec_checked(parsed_json(text@)),
{
    checked_json(parse_json(text))
}

/// Classifies what came back from the wire.
pub fn receive(reply: Reply) -> (r: ApiResult<Json>)
    ensures
        result_view(r) == spec_receive(reply@),
{
    match reply {
        Reply::Body(text) => decode_body(text.as_str()),
        Reply::Failure(detail) => Err(Error::RequestError(detail)),
    }
}

/// Whatever comes back, a call ends in a document or in a `RequestError`;
/// a failure on the way is reported with its own description.
pub proof fn lemma_failures_are_request_errors(reply: ReplyView)
    ensures
        spec_receive(reply) is Ok || spec_receive(reply) matches Err(ErrorView::RequestError(_)),
        reply matches ReplyView::Failure(detail) ==> spec_receive(reply) == Err::<Json, ErrorView>(
            ErrorView::RequestError(detail),
        ),
{
}

/// Every request, whatever its method, path and body, carries the key
/// after the word `Bearer` and a space under `Authorization`, and the
/// organization, or nothing where none is set, under
/// `OpenAI-Organization`; and it goes to the base URL followed by the path.
pub proof fn lemma_requests_are_authenticated(
    client: OpenAIView,
    method: Method,
    sub_url: Seq<char>,
    body: Option<Json>,
)
    ensures
        spec_request(client, method, sub_url, body).headers.len() == 3,
        spec_request(client, method, sub_url, body).headers[0] == ("Content-Type"@, "application/json"@),
        spec_request(client, method, sub_url, body).headers[1].0 == "OpenAI-Organization"@,
        spec_request(client, method, sub_url, body).headers[1].1 == match client.auth.organization {
            Some(organization) => organization,
            None => Seq::<char>::empty(),
        },
        spec_request(client, method, sub_url, body).headers[2] == (
            "Authorization"@,
            "Bearer "@ + client.auth.api_key,
        ),
        spec_request(client, method, sub_url, body).url == client.api_url + sub_url,
{
}

impl OpenAI {
    /// The headers of a call, built afresh from the credential.
    pub fn headers(&self) -> (r: Vec<Header>)
        ensures
            Seq::new(r@.len(), |i: int| r@[i]@) == spec_headers(self@),
    {
        let mut headers: Vec<Header> = Vec::new();
        headers.push(
            Header {
                name: String::from_str("Content-Type"),
                value: String::from_str("application/json"),
            },
        );
        headers.push(
            Header {
                name: String::from_str("OpenAI-Organization"),
                value: self.auth().organization_or_empty(),
            },
        );
        headers.push(
            Header {
                name: String::from_str("Authorization"),
                value: String::from_str("Bearer ").concat(self.auth().api_key()),
            },
        );
        assert(Seq::new(headers@.len(), |i: int| headers@[i]@) =~= spec_headers(self@));
        headers
    }

    /// The request of a `post`: the body goes out as it came in.
    pub fn post_request(&self, sub_url: &str, body: Json) -> (r: Request)
        ensures
            r@ == spec_request(self@, Method::Post, sub_url@, Some(body)),
    {
        Request {
            method: Method::Post,
            url: String::from_str(self.api_url()).concat(sub_url),
            headers: self.headers(),
            body: Some(body),
        }
    }

    /// The request of a `get`: the same, without a body.
    pub fn get_request(&self, sub_url: &str) -> (r: Request)
        ensures
            r@ == spec_request(self@, Method::Get, sub_url@, None),
    {
        Request {
            method: Method::Get,
            url: String::from_str(self.api_url()).concat(sub_url),
            headers: self.headers(),
            body: None,
        }
    }
}

} // verus!
