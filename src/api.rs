//! Request dispatch of the control API: the health check, trick submission,
//! and the not-found fallback, with the replies each one gives.

use vstd::prelude::*;

verus! {

/// Method of an incoming request, as far as routing tells methods apart.
#[derive(Debug, Clone, Copy, PartialEq, Eq, Structural)]
pub enum Method {
    Get,
    Post,
    Other,
}

/// The endpoint a request is dispatched to.
#[derive(Debug, Clone, Copy, PartialEq, Eq, Structural)]
pub enum Route {
    Ping,
    Trick,
    NotFound,
}

/// Why a trick payload could not be read.
#[derive(Debug, Clone, Copy, PartialEq, Eq, Structural)]
pub enum PayloadError {
    /// The body was not a well-formed document.
    Syntax,
    /// The document did not describe a trick.
    Data,
    /// The request did not declare a document body.
    MissingContentType,
}

/// A status code and a text body.
pub struct Reply {
    pub status: u16,
    pub body: String,
}

pub const STATUS_OK: u16 = 200;
pub const STATUS_BAD_REQUEST: u16 = 400;
pub const STATUS_NOT_FOUND: u16 = 404;
pub const STATUS_UNSUPPORTED_MEDIA_TYPE: u16 = 415;
pub const STATUS_UNPROCESSABLE_ENTITY: u16 = 422;

pub open spec fn is_client_error(status: u16) -> bool {
    400 <= status < 500
}

/// The route of a request: `/` and `/ping` read the health check, `/trick`
/// submits a trick, and everything else falls through to not-found.
pub open spec fn route_spec(method: Method, path: Seq<char>) -> Route {
    if method == Method::Get && (path == "/"@ || path == "/ping"@) {
        Route::Ping
    } else if method == Method::Post && path == "/trick"@ {
        Route::Trick
    } else {
        Route::NotFound
    }
}

/// Picks the endpoint for a request.
pub fn route(method: Method, path: &String) -> (r: Route)
    ensures
        r == route_spec(method, path@),
{
    let root = "/".to_owned();
    let ping_path = "/ping".to_owned();
    let trick_path = "/trick".to_owned();
    if method == Method::Get && (path.eq(&root) || path.eq(&ping_path)) {
        Route::Ping
    } else if method == Method::Post && path.eq(&trick_path) {
        Route::Trick
    } else {
        Route::NotFound
    }
}

/// The health check: a fixed acknowledgment with a success status.
pub fn ping() -> (r: Reply)
    ensures
        r.status == STATUS_OK,
        r.body@ == "pong"@,
{
    Reply { status: STATUS_OK, body: "pong".to_owned() }
}

/// The fallback for an unknown route: a client error, not a closed connection.
pub fn not_found() -> (r: Reply)
    ensures
        r.status == STATUS_NOT_FOUND,
        is_client_error(r.status),
        r.body@ == "bad endpoint"@,
{
    Reply { status: STATUS_NOT_FOUND, body: "bad endpoint".to_owned() }
}

pub open spec fn rejection_status(e: PayloadError) -> u16 {
    match e {
        PayloadError::Syntax => STATUS_BAD_REQUEST,
        PayloadError::Data => STATUS_UNPROCESSABLE_ENTITY,
        PayloadError::MissingContentType => STATUS_UNSUPPORTED_MEDIA_TYPE,
    }
}

/// The status of the reply to a trick payload that could not be read: always a
/// client error.
pub fn payload_rejection_status(e: PayloadError) -> (r: u16)
    ensures
        r == rejection_status(e),
        is_client_error(r),
{
    match e {
        PayloadError::Syntax => STATUS_BAD_REQUEST,
        PayloadError::Data => STATUS_UNPROCESSABLE_ENTITY,
        PayloadError::MissingContentType => STATUS_UNSUPPORTED_MEDIA_TYPE,
    }
}

/// What the server does with one request on a connection.
#[derive(Debug, Clone, Copy, PartialEq, Eq, Structural)]
pub enum Dispatch {
    /// Answer with the health check.
    Ping,
    /// Run the trick that the payload holds.
    RunTrick,
    /// Answer with a client error of this status.
    Reject { status: u16 },
}

pub open spec fn dispatch_spec(route: Route, payload: Option<PayloadError>) -> Dispatch {
    match route {
        Route::Ping => Dispatch::Ping,
        Route::NotFound => Dispatch::Reject { status: STATUS_NOT_FOUND },
        Route::Trick => match payload {
            None => Dispatch::RunTrick,
            Some(e) => Dispatch::Reject { status: rejection_status(e) },
        },
    }
}

/// Decides how to answer a request, given its route and, for a trick
/// submission, whether its payload could be read. Every outcome is an answer
/// on the same connection: none closes it.
pub fn dispatch(route: Route, payload: Option<PayloadError>) -> (r: Dispatch)
    ensures
        r == dispatch_spec(route, payload),
        r matches Dispatch::Reject { status } ==> is_client_error(status),
{
    match route {
        Route::Ping => Dispatch::Ping,
        Route::NotFound => Dispatch::Reject { status: STATUS_NOT_FOUND },
        Route::Trick => match payload {
            None => Dispatch::RunTrick,
            Some(e) => Dispatch::Reject { status: payload_rejection_status(e) },
        },
    }
}

} // verus!
