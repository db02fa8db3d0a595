//! What the proxy decides for one request: before the upstream is asked, and
//! once it has answered or failed.
//!
//! The server around this module does the waiting. It calls [`handler`], does
//! what the [`Step`] says, and for a forwarded request calls [`settle`] with
//! the [`Outcome`].

use crate::config::Config;
use crate::headers::{
    allowed_headers, annotated, cors, empty_headers, header_lines, is_header_text, no_lines,
    option_text, room_for_cors, CorsError,
};
use crate::target::{
    build_target, describe_invalid_uri, forwarded_part, parse_uri, parsed_uri, upstream_target,
    uri_accepted,
};
use vstd::prelude::*;
use vstd::string::*;

verus! {

/// The status of a response that the proxy makes itself without a failure.
pub const STATUS_OK: u16 = 200;

/// The status of every failure, whatever went wrong.
pub const STATUS_BAD_REQUEST: u16 = 400;

/// The facts of an inbound request that the proxy decides on. Headers and
/// body pass through unread.
pub struct Inbound {
    /// The method as it stands on the request line, such as `GET`.
    pub method: String,
    /// The path of the request's address.
    pub path: String,
    /// Path and query of the request's address, where it has them.
    pub path_and_query: Option<String>,
}

/// A response that the proxy makes itself.
pub struct Reply {
    pub status: u16,
    pub headers: http::header::HeaderMap,
    pub body: String,
}

/// A failure, to be sent as a response with `message` for its body.
pub struct Rejection {
    pub status: u16,
    pub message: String,
}

/// What to do with an inbound request.
pub enum Step {
    /// Answer at once; the upstream is not asked.
    Respond(Reply),
    /// Send the request, otherwise untouched, to `target`. `address` is the
    /// text that `target` was parsed from.
    Forward { target: http::uri::Uri, address: String },
    /// Answer with a failure; the upstream is not asked.
    Reject(Rejection),
}

/// How a forwarded request ended.
pub enum Outcome {
    /// The upstream answered, with these headers.
    Answered(http::header::HeaderMap),
    /// The transport failed; the text describes the error.
    Failed(String),
}

/// Whether `method` is the preflight method. Methods are case-sensitive.
pub open spec fn is_preflight(method: Seq<char>) -> bool {
    method == "OPTIONS"@
}

/// The address that a request is forwarded to.
pub open spec fn target_of(config: &Config, inbound: &Inbound) -> Seq<char> {
    upstream_target(
        config.host@,
        forwarded_part(option_text(inbound.path_and_query), inbound.path@),
    )
}

/// The message of the failure to annotate a response under `config`: the
/// configured allow-headers text is no header value, or else the header map
/// took no more.
pub open spec fn annotation_failure(config: &Config) -> Seq<char> {
    if is_header_text(allowed_headers(option_text(config.allow_headers))) {
        (CorsError::Overflow { appended: 0 }).message_text()
    } else {
        CorsError::InvalidAllowHeaders.message_text()
    }
}

/// The failure response for `message`: always a bad request.
pub fn reject(message: String) -> (r: Rejection)
    ensures
        r.status == STATUS_BAD_REQUEST,
        r.message == message,
{
    Rejection { status: STATUS_BAD_REQUEST, message }
}

fn copy_of(text: &Option<String>) -> (r: Option<String>)
    ensures
        option_text(r) == option_text(*text),
{
    match text {
        Some(v) => Some(v.clone()),
        None => None,
    }
}

/// The preflight response, given the fresh headers and how annotating them
/// went: an empty body under those headers, or the failure.
pub fn preflight_step(headers: http::header::HeaderMap, annotation: Result<(), CorsError>) -> (r:
    Step)
    ensures
        annotation is Ok ==> (r matches Step::Respond(reply) && reply.status == STATUS_OK
            && reply.body@.len() == 0 && reply.headers == headers),
        annotation matches Err(e) ==> (r matches Step::Reject(rejection) && rejection.status
            == STATUS_BAD_REQUEST && rejection.message@ == e.message_text()),
{
    match annotation {
        Ok(_) => Step::Respond(Reply { status: STATUS_OK, headers, body: String::new() }),
        Err(e) => Step::Reject(reject(e.message())),
    }
}

/// The step for a request that is forwarded, given its address and what
/// parsing the address gave.
pub fn forward_step(address: String, parsed: Result<http::uri::Uri, http::uri::InvalidUri>) -> (r:
    Step)
    ensures
        parsed matches Ok(uri) ==> (r matches Step::Forward { target, address: text } && target
            == uri && text == address),
        parsed is Err ==> (r matches Step::Reject(rejection) && rejection.status
            == STATUS_BAD_REQUEST && rejection.message@.len() > 0),
{
    match parsed {
        Ok(target) => Step::Forward { target, address },
        Err(e) => Step::Reject(reject(describe_invalid_uri(&e))),
    }
}

/// Decides what to do with an inbound request.
///
/// A preflight request is answered at once with an empty body and the
/// cross-origin headers, and is never forwarded; it is rejected only where
/// the configured allow-headers text cannot stand in a header. Any other
/// request is forwarded to the upstream base, one slash, and its own path and
/// query less one leading slash, parsed as an address; where that text is no
/// address it is rejected.
pub fn handler(config: &Config, inbound: &Inbound) -> (r: Step)
    ensures
        is_preflight(inbound.method@) ==> match r {
            Step::Respond(reply) => reply.status == STATUS_OK && reply.body@.len() == 0
                && header_lines(reply.headers) == annotated(
                no_lines(),
                allowed_headers(option_text(config.allow_headers)),
            ) && is_header_text(allowed_headers(option_text(config.allow_headers))),
            Step::Reject(rejection) => rejection.status == STATUS_BAD_REQUEST
                && rejection.message@ == annotation_failure(config),
            Step::Forward { .. } => false,
        },
        is_preflight(inbound.method@) ==> (r is Respond <==> is_header_text(
            allowed_headers(option_text(config.allow_headers)),
        )),
        !is_preflight(inbound.method@) ==> match r {
            Step::Forward { target, address } => address@ == target_of(config, inbound)
                && parsed_uri(address@) == Some(target),
            Step::Reject(rejection) => rejection.status == STATUS_BAD_REQUEST
                && rejection.message@.len() > 0 && !uri_accepted(target_of(config, inbound)),
            Step::Respond(_) => false,
        },
{
    if inbound.method == String::from_str("OPTIONS") {
        let mut headers = empty_headers();
        let annotation = cors(&mut headers, copy_of(&config.allow_headers));
        preflight_step(headers, annotation)
    } else {
        let path_query: &str = match &inbound.path_and_query {
            Some(pq) => pq.as_str(),
            None => inbound.path.as_str(),
        };
        let address = build_target(config.host.as_str(), path_query);
        let parsed = parse_uri(address.clone());
        forward_step(address, parsed)
    }
}

/// Ends a forwarded request.
///
/// Where the upstream answered, its headers come back with the cross-origin
/// headers appended; status and body are not this function's to touch. With
/// allow-headers text that can stand in a header, and room in the upstream's
/// headers for four more names, an answer is never turned into a failure. Where
/// the transport failed, the failure is a bad request whose body is the
/// error's text.
pub fn settle(config: &Config, outcome: Outcome) -> (r: Result<http::header::HeaderMap, Rejection>)
    ensures
        outcome matches Outcome::Failed(message) ==> (r matches Err(rejection) && rejection.status
            == STATUS_BAD_REQUEST && rejection.message == message),
        outcome matches Outcome::Answered(headers) ==> match r {
            Ok(out) => header_lines(out) == annotated(
                header_lines(headers),
                allowed_headers(option_text(config.allow_headers)),
            ) && is_header_text(allowed_headers(option_text(config.allow_headers))),
            Err(rejection) => rejection.status == STATUS_BAD_REQUEST && rejection.message@
                == annotation_failure(config),
        },
        outcome is Answered && !is_header_text(
            allowed_headers(option_text(config.allow_headers)),
        ) ==> r is Err,
        outcome matches Outcome::Answered(headers) && is_header_text(
            allowed_headers(option_text(config.allow_headers)),
        ) && room_for_cors(header_lines(headers)) ==> r is Ok,
{
    match outcome {
        Outcome::Failed(message) => Err(reject(message)),
        Outcome::Answered(headers) => {
            let mut headers = headers;
            match cors(&mut headers, copy_of(&config.allow_headers)) {
                Ok(_) => Ok(headers),
                Err(e) => Err(reject(e.message())),
            }
        },
    }
}

} // verus!
