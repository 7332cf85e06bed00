use vstd::prelude::*;

use crate::json::{Json, JsonV};

verus! {

/// HTTP verb of a request.
#[derive(Debug, Clone, Copy, PartialEq, Eq, Structural)]
pub enum HttpMethod {
    Get,
    Post,
    Put,
    Delete,
}

/// Body of a request.
#[derive(Debug)]
pub enum RequestBody {
    Empty,
    Json(Json),
    Form(String),
}

/// Model of a request body.
pub ghost enum BodyV {
    Empty,
    Json(JsonV),
    Form(Seq<char>),
}

/// A fully prepared request to the authorization server: everything the
/// transport needs to send it.
#[derive(Debug)]
pub struct Uma2Request {
    pub method: HttpMethod,
    pub url: String,
    /// Value of the `Authorization` header.
    pub authorization: String,
    /// Value of the `Content-Type` header.
    pub content_type: String,
    /// Whether an `Accept: application/json` header is sent.
    pub accept_json: bool,
    pub body: RequestBody,
}

pub open spec fn body_view(b: RequestBody) -> BodyV {
    match b {
        RequestBody::Empty => BodyV::Empty,
        RequestBody::Json(j) => BodyV::Json(j@),
        RequestBody::Form(f) => BodyV::Form(f@),
    }
}

/// Model of a request.
pub ghost struct RequestV {
    pub method: HttpMethod,
    pub url: Seq<char>,
    pub authorization: Seq<char>,
    pub content_type: Seq<char>,
    pub accept_json: bool,
    pub body: BodyV,
}

impl View for Uma2Request {
    type V = RequestV;

    open spec fn view(&self) -> RequestV {
        RequestV {
            method: self.method,
            url: self.url@,
            authorization: self.authorization@,
            content_type: self.content_type@,
            accept_json: self.accept_json,
            body: body_view(self.body),
        }
    }
}

/// The `Authorization` header value for a bearer token.
pub open spec fn bearer_header(token: Seq<char>) -> Seq<char> {
    "Bearer "@ + token
}

/// The `Authorization` header value for basic credentials.
pub open spec fn basic_header(token: Seq<char>) -> Seq<char> {
    "Basic "@ + token
}

/// `Bearer <token>`.
pub fn bearer(token: &String) -> (r: String)
    ensures
        r@ == bearer_header(token@),
{
    String::from_str("Bearer ").concat(token.as_str())
}

/// `Basic <token>`.
pub fn basic(token: &String) -> (r: String)
    ensures
        r@ == basic_header(token@),
{
    String::from_str("Basic ").concat(token.as_str())
}

/// A JSON request with bearer authentication.
pub open spec fn json_request(method: HttpMethod, url: Seq<char>, token: Seq<char>, accept_json: bool, body: BodyV) -> RequestV {
    RequestV {
        method,
        url,
        authorization: bearer_header(token),
        content_type: "application/json"@,
        accept_json,
        body,
    }
}

/// A request with bearer authentication and a JSON content type.
pub fn make_json_request(method: HttpMethod, url: String, token: &String, accept_json: bool, body: RequestBody) -> (r: Uma2Request)
    ensures
        r@ == json_request(method, url@, token@, accept_json, body_view(body)),
{
    Uma2Request {
        method,
        url,
        authorization: bearer(token),
        content_type: String::from_str("application/json"),
        accept_json,
        body,
    }
}

} // verus!
