//! The uniform response representation and the decode-failure description.
//!
//! Wire-format decoding itself is the host framework's job: the library only
//! sees its outcome, a [`Rejection`], and turns it into a [`Response`].

use vstd::prelude::*;
use vstd::string::StringExecFns;

verus! {

/// Why decoding a request payload failed.
#[derive(Clone, Copy, Debug, PartialEq, Eq)]
pub enum RejectionKind {
    /// The payload was syntactically valid but did not match the target
    /// schema (for example a type mismatch on a field).
    DataError,
    /// The payload was not syntactically valid for the wire format.
    SyntaxError,
    /// The request carried a wrong or missing content type for this payload
    /// kind.
    MissingContentType,
}

/// The status that the decoding library's own conversion gives a failure of
/// each kind.
pub open spec fn status_of(kind: RejectionKind) -> int {
    match kind {
        RejectionKind::DataError => 422,
        RejectionKind::SyntaxError => 400,
        RejectionKind::MissingContentType => 415,
    }
}

/// A structured description of why decoding a request payload failed.
#[derive(Debug)]
pub struct Rejection {
    /// The failure kind; it decides the default response status.
    pub kind: RejectionKind,
    /// The human-readable description of the failure.
    pub message: String,
}

/// The mathematical value of a [`Rejection`].
pub struct RejectionData {
    pub kind: RejectionKind,
    pub message: Seq<char>,
}

impl View for Rejection {
    type V = RejectionData;

    open spec fn view(&self) -> RejectionData {
        RejectionData { kind: self.kind, message: self.message@ }
    }
}

/// The uniform response representation that every error path produces.
#[derive(Debug)]
pub struct Response {
    /// The HTTP status code.
    pub status: u16,
    /// The value of the content-type header.
    pub content_type: String,
    /// The response body.
    pub body: String,
}

/// The mathematical value of a [`Response`].
pub struct ResponseData {
    pub status: int,
    pub content_type: Seq<char>,
    pub body: Seq<char>,
}

impl View for Response {
    type V = ResponseData;

    open spec fn view(&self) -> ResponseData {
        ResponseData {
            status: self.status as int,
            content_type: self.content_type@,
            body: self.body@,
        }
    }
}

/// The content type of every plain-text response the library produces.
pub open spec fn text_plain_content_type() -> Seq<char> {
    "text/plain; charset=utf-8"@
}

/// The response that the decoding library's standard conversion gives a
/// rejection: the kind's status, a plain-text content type, and the
/// rejection's own message as the body.
pub open spec fn default_response_spec(rejection: RejectionData) -> ResponseData {
    ResponseData {
        status: status_of(rejection.kind),
        content_type: text_plain_content_type(),
        body: rejection.message,
    }
}

/// The status code of the default response for a failure of this kind.
pub fn status_code(kind: RejectionKind) -> (status: u16)
    ensures
        status as int == status_of(kind),
{
    match kind {
        RejectionKind::DataError => 422,
        RejectionKind::SyntaxError => 400,
        RejectionKind::MissingContentType => 415,
    }
}

/// Convert a rejection into its default response.
pub fn default_response(rejection: Rejection) -> (resp: Response)
    ensures
        resp@ == default_response_spec(rejection@),
{
    let status = status_code(rejection.kind);
    Response {
        status,
        content_type: String::from_str("text/plain; charset=utf-8"),
        body: rejection.message,
    }
}

} // verus!
