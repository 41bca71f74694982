//! A request, described as a plain value for a transport to perform.

use vstd::prelude::*;
use crate::json::{Json, JsonValue};

verus! {

/// The HTTP method of a request.
#[derive(Clone, Copy, Debug, PartialEq, Eq)]
pub enum Method {
    Get,
    Post,
    Put,
    Delete,
}

/// The slice of a list that one request asks for: at most `limit` rows,
/// starting behind the first `offset` rows.
#[derive(Clone, Copy, Debug, PartialEq, Eq)]
pub struct PageWindow {
    pub limit: u32,
    pub offset: u128,
}

impl PageWindow {
    /// The name of the query parameter that carries the page size.
    pub fn limit_name() -> (name: &'static str)
        ensures
            name@ == "limit"@,
    {
        "limit"
    }

    /// The name of the query parameter that carries the offset.
    pub fn offset_name() -> (name: &'static str)
        ensures
            name@ == "offset"@,
    {
        "offset"
    }
}

/// What the client calls itself to the service: its name and its version.
pub const USER_AGENT: &'static str = "rust-moysklad/0.1.0";

/// One request to the service. Every request carries the bearer token and
/// the client's user agent, and asks for a compressed answer; a request for a
/// page of a list carries the page's window, and a search or a filter one
/// more query parameter, as name and value.
#[derive(Debug, PartialEq)]
pub struct Request {
    pub method: Method,
    pub url: String,
    pub token: String,
    pub user_agent: String,
    pub gzip: bool,
    pub page: Option<PageWindow>,
    pub param: Option<(String, String)>,
    pub body: Option<Json>,
}

/// A request as a mathematical value.
pub struct RequestModel {
    pub method: Method,
    pub url: Seq<char>,
    pub token: Seq<char>,
    pub user_agent: Seq<char>,
    pub gzip: bool,
    pub page: Option<PageWindow>,
    pub param: Option<(Seq<char>, Seq<char>)>,
    pub body: Option<JsonValue>,
}

impl View for Request {
    type V = RequestModel;

    open spec fn view(&self) -> RequestModel {
        RequestModel {
            method: self.method,
            url: self.url@,
            token: self.token@,
            user_agent: self.user_agent@,
            gzip: self.gzip,
            page: self.page,
            param: match self.param {
                Some((name, value)) => Some((name@, value@)),
                None => None,
            },
            body: match self.body {
                Some(document) => Some(document@),
                None => None,
            },
        }
    }
}

} // verus!
