use vstd::prelude::*;
use vstd::utf8::*;

use crate::routing::Route;

verus! {

/// HTTP status of a document served whole.
pub const STATUS_OK: u16 = 200;

/// HTTP status of a request that matches no route.
pub const STATUS_NOT_FOUND: u16 = 404;

/// HTTP status of a document that could not be served.
pub const STATUS_INTERNAL_ERROR: u16 = 500;

/// The failures a request can meet. Each one ends the request with a fixed
/// plain-text reply and leaves the service running.
#[derive(Clone, Copy, Debug, PartialEq, Eq, Structural)]
pub enum ServiceError {
    /// The backing file is absent or could not be read.
    Read,
    /// The backing file holds bytes that are not well-formed UTF-8.
    Encoding,
    /// No route matches the method and path.
    RouteNotFound,
}

impl ServiceError {
    pub open spec fn status_of(self) -> u16 {
        match self {
            ServiceError::Read => STATUS_INTERNAL_ERROR,
            ServiceError::Encoding => STATUS_INTERNAL_ERROR,
            ServiceError::RouteNotFound => STATUS_NOT_FOUND,
        }
    }

    pub open spec fn message_of(self) -> Seq<char> {
        match self {
            ServiceError::Read => "Failed to open file"@,
            ServiceError::Encoding => "Failed to parse UTF-8"@,
            ServiceError::RouteNotFound => "Not Found"@,
        }
    }

    /// The HTTP status that reports this failure.
    pub fn status(&self) -> (r: u16)
        ensures
            r == self.status_of(),
    {
        match self {
            ServiceError::Read => STATUS_INTERNAL_ERROR,
            ServiceError::Encoding => STATUS_INTERNAL_ERROR,
            ServiceError::RouteNotFound => STATUS_NOT_FOUND,
        }
    }

    /// The plain-text body that reports this failure.
    pub fn message(&self) -> (r: String)
        ensures
            r@ == self.message_of(),
    {
        match self {
            ServiceError::Read => String::from_str("Failed to open file"),
            ServiceError::Encoding => String::from_str("Failed to parse UTF-8"),
            ServiceError::RouteNotFound => String::from_str("Not Found"),
        }
    }
}

/// The content type of a served document.
pub open spec fn json_content_type() -> Seq<char> {
    "application/json; charset=utf-8"@
}

/// A reply to one request: status, an optional `Content-Type` header and a
/// text body.
pub struct Reply {
    pub status: u16,
    pub content_type: Option<String>,
    pub body: String,
}

/// What a reply puts on the wire: its status, its content type, and the
/// bytes of its body.
pub struct ReplyView {
    pub status: u16,
    pub content_type: Option<Seq<char>>,
    pub body: Seq<u8>,
}

impl View for Reply {
    type V = ReplyView;

    open spec fn view(&self) -> ReplyView {
        ReplyView {
            status: self.status,
            content_type: match self.content_type {
                Some(t) => Some(t@),
                None => None,
            },
            body: encode_utf8(self.body@),
        }
    }
}

/// A document served whole: status 200, JSON content type, the bytes as read.
pub open spec fn document_reply(bytes: Seq<u8>) -> ReplyView {
    ReplyView { status: STATUS_OK, content_type: Some(json_content_type()), body: bytes }
}

/// The plain-text reply that reports a failure.
pub open spec fn error_reply(e: ServiceError) -> ReplyView {
    ReplyView { status: e.status_of(), content_type: None, body: encode_utf8(e.message_of()) }
}

/// The bytes of a file read, or `None` where the read failed.
pub open spec fn read_view(read: Option<Vec<u8>>) -> Option<Seq<u8>> {
    match read {
        Some(b) => Some(b@),
        None => None,
    }
}

/// The reply of a document route, given what reading its file gave.
pub open spec fn file_reply_of(read: Option<Seq<u8>>) -> ReplyView {
    match read {
        None => error_reply(ServiceError::Read),
        Some(bytes) => if valid_utf8(bytes) {
            document_reply(bytes)
        } else {
            error_reply(ServiceError::Encoding)
        },
    }
}

/// The reply to a request on a route, given what reading the route's file
/// gave; a route that reads no file ignores `read`.
pub open spec fn reply_of(route: Route, read: Option<Seq<u8>>) -> ReplyView {
    match route {
        Route::NotFound => error_reply(ServiceError::RouteNotFound),
        _ => file_reply_of(read),
    }
}

/// Relies on `String::from_utf8`: it succeeds exactly when the bytes are
/// well-formed UTF-8, and the string then holds those same bytes.
#[verifier::external_body]
fn decode_utf8_text(bytes: Vec<u8>) -> (r: Option<String>)
    ensures
        r.is_some() == valid_utf8(bytes@),
        r matches Some(s) ==> encode_utf8(s@) == bytes@,
{
    String::from_utf8(bytes).ok()
}

impl Reply {
    /// The plain-text reply that reports a failure.
    pub fn from_error(e: ServiceError) -> (r: Reply)
        ensures
            r@ == error_reply(e),
    {
        Reply { status: e.status(), content_type: None, body: e.message() }
    }

    /// A JSON document served whole with status 200.
    pub fn document(text: String) -> (r: Reply)
        ensures
            r@ == document_reply(encode_utf8(text@)),
    {
        Reply {
            status: STATUS_OK,
            content_type: Some(String::from_str("application/json; charset=utf-8")),
            body: text,
        }
    }
}

/// The reply of a document route, from what reading its file gave (`None`
/// where the read failed). The bytes are relayed unchanged.
pub fn file_reply(read: Option<Vec<u8>>) -> (r: Reply)
    ensures
        r@ == file_reply_of(read_view(read)),
{
    match read {
        None => Reply::from_error(ServiceError::Read),
        Some(bytes) => match decode_utf8_text(bytes) {
            Some(text) => Reply::document(text),
            None => Reply::from_error(ServiceError::Encoding),
        },
    }
}

/// The reply to a request that matches no route.
pub fn not_found() -> (r: Reply)
    ensures
        r@ == error_reply(ServiceError::RouteNotFound),
{
    Reply::from_error(ServiceError::RouteNotFound)
}

/// The reply to a request on `route`, from what reading the route's file gave;
/// `read` is ignored where the route reads no file.
pub fn respond(route: Route, read: Option<Vec<u8>>) -> (r: Reply)
    ensures
        r@ == reply_of(route, read_view(read)),
{
    match route {
        Route::NotFound => not_found(),
        _ => file_reply(read),
    }
}

} // verus!
