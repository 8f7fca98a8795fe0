//! The request router: which of the four defined answers an incoming
//! method and path receive, and the complete reply for each branch.

use vstd::prelude::*;

use crate::json::render_json;
use crate::json::spec_json;
use crate::html::render_html;
use crate::html::spec_html;
use crate::model::GeoIPResponse;
use crate::text::str_eq;

verus! {

/// An HTTP request method, as far as the router distinguishes them.
///
/// Any method other than the listed ones maps to `Other`; the router
/// treats everything but `Get` and `Head` alike.
#[derive(Clone, Copy, Debug, PartialEq, Eq, Structural)]
pub enum Method {
    Get,
    Head,
    Post,
    Put,
    Delete,
    Options,
    Patch,
    Other,
}

/// The four defined answers to a request.
#[derive(Clone, Copy, Debug, PartialEq, Eq, Structural)]
pub enum RouteDecision {
    /// Answer with the HTML rendering of the report.
    Html,
    /// Answer with the JSON rendering of the report.
    Json,
    /// The path is not recognized.
    NotFound,
    /// The method is neither GET nor HEAD.
    MethodNotAllowed,
}

/// The body's declared media type.
#[derive(Clone, Copy, Debug, PartialEq, Eq, Structural)]
pub enum ContentType {
    TextPlain,
    TextHtml,
    Json,
}

/// A complete reply: status, media type, the `Allow` header when one
/// is owed, and the body text.
#[derive(Clone, Debug)]
pub struct HttpReply {
    pub status: u16,
    pub content_type: ContentType,
    pub allow: Option<String>,
    pub body: String,
}

/// The routing rule: a method outside GET and HEAD is rejected before
/// the path is looked at; `/` renders HTML, `/json` renders JSON, and
/// every other path is unknown.
pub open spec fn spec_route(m: Method, path: Seq<char>) -> RouteDecision {
    if m != Method::Get && m != Method::Head {
        RouteDecision::MethodNotAllowed
    } else if path == "/"@ {
        RouteDecision::Html
    } else if path == "/json"@ {
        RouteDecision::Json
    } else {
        RouteDecision::NotFound
    }
}

/// Decide how a method and path are answered.
pub fn route(m: Method, path: &str) -> (d: RouteDecision)
    ensures
        d == spec_route(m, path@),
{
    if !(m == Method::Get || m == Method::Head) {
        RouteDecision::MethodNotAllowed
    } else if str_eq(path, "/") {
        RouteDecision::Html
    } else if str_eq(path, "/json") {
        RouteDecision::Json
    } else {
        RouteDecision::NotFound
    }
}

/// The reply for a rejected method: 405, plain text, and the `Allow`
/// header naming the two accepted methods.
pub fn method_not_allowed_reply() -> (rep: HttpReply)
    ensures
        rep.status == 405,
        rep.content_type == ContentType::TextPlain,
        rep.allow is Some && rep.allow->0@ == "GET, HEAD"@,
        rep.body@ == "This method is not allowed\n"@,
{
    HttpReply {
        status: 405,
        content_type: ContentType::TextPlain,
        allow: Some(String::from_str("GET, HEAD")),
        body: String::from_str("This method is not allowed\n"),
    }
}

/// The reply for an unrecognized path: 404 with a short plain-text
/// explanation.
pub fn not_found_reply() -> (rep: HttpReply)
    ensures
        rep.status == 404,
        rep.content_type == ContentType::TextPlain,
        rep.allow is None,
        rep.body@ == "The page you requested could not be found\n"@,
{
    HttpReply {
        status: 404,
        content_type: ContentType::TextPlain,
        allow: None,
        body: String::from_str("The page you requested could not be found\n"),
    }
}

/// Answer a request about the report `r`: route the method and path,
/// and produce the full reply of the chosen branch.
pub fn respond(m: Method, path: &str, r: &GeoIPResponse) -> (rep: HttpReply)
    ensures
        spec_route(m, path@) == RouteDecision::MethodNotAllowed ==> rep.status == 405
            && rep.content_type == ContentType::TextPlain && rep.allow is Some
            && rep.allow->0@ == "GET, HEAD"@ && rep.body@ == "This method is not allowed\n"@,
        spec_route(m, path@) == RouteDecision::Html ==> rep.status == 200 && rep.content_type
            == ContentType::TextHtml && rep.allow is None && rep.body@ == spec_html(r@),
        spec_route(m, path@) == RouteDecision::Json ==> rep.status == 200 && rep.content_type
            == ContentType::Json && rep.allow is None && rep.body@ == spec_json(r@),
        spec_route(m, path@) == RouteDecision::NotFound ==> rep.status == 404 && rep.content_type
            == ContentType::TextPlain && rep.allow is None && rep.body@
            == "The page you requested could not be found\n"@,
{
    match route(m, path) {
        RouteDecision::MethodNotAllowed => method_not_allowed_reply(),
        RouteDecision::Html => HttpReply {
            status: 200,
            content_type: ContentType::TextHtml,
            allow: None,
            body: render_html(r),
        },
        RouteDecision::Json => HttpReply {
            status: 200,
            content_type: ContentType::Json,
            allow: None,
            body: render_json(r),
        },
        RouteDecision::NotFound => not_found_reply(),
    }
}

} // verus!
