//! The error taxonomy of the client.
//!
//! Every failure a caller can see is a [`DeltaSharingError`]: a kind drawn
//! from a fixed, closed set, together with a human-readable message.

use vstd::prelude::*;

verus! {

use crate::decimal::dec_digits;
use crate::decimal::u64_to_dec;
use crate::text::chars_vec;
use crate::text::string_from_chars;

/// The closed set of failure kinds.
///
/// `Internal` marks invariant violations (malformed URL construction, an
/// unexpected status code). `Profile` marks credential problems. `Request`
/// marks transport-layer failures. `ParseResponse` marks a body or header
/// that did not match the expected shape. `ClientError` and `ServerError`
/// carry the original HTTP status and the server-supplied error code.
#[derive(Debug)]
pub enum ErrorKind {
    Internal,
    Profile,
    Request,
    ClientError { status: u16, code: String },
    ServerError { status: u16, code: String },
    ParseResponse,
}

/// Specification-level value of an [`ErrorKind`].
pub enum ErrorKindView {
    Internal,
    Profile,
    Request,
    ClientError { status: u16, code: Seq<char> },
    ServerError { status: u16, code: Seq<char> },
    ParseResponse,
}

impl View for ErrorKind {
    type V = ErrorKindView;

    closed spec fn view(&self) -> ErrorKindView {
        match self {
            ErrorKind::Internal => ErrorKindView::Internal,
            ErrorKind::Profile => ErrorKindView::Profile,
            ErrorKind::Request => ErrorKindView::Request,
            ErrorKind::ClientError { status, code } => ErrorKindView::ClientError {
                status: *status,
                code: code@,
            },
            ErrorKind::ServerError { status, code } => ErrorKindView::ServerError {
                status: *status,
                code: code@,
            },
            ErrorKind::ParseResponse => ErrorKindView::ParseResponse,
        }
    }
}

impl ErrorKindView {
    /// A client error carries a 4xx status; a server error carries a 5xx status.
    pub open spec fn wf(self) -> bool {
        match self {
            ErrorKindView::ClientError { status, .. } => 400 <= status <= 499,
            ErrorKindView::ServerError { status, .. } => 500 <= status <= 599,
            _ => true,
        }
    }
}

/// An error of the client: a [`ErrorKind`] and a message.
#[derive(Debug)]
pub struct DeltaSharingError {
    kind: ErrorKind,
    message: String,
}

/// Specification-level value of a [`DeltaSharingError`].
pub struct DeltaSharingErrorView {
    pub kind: ErrorKindView,
    pub message: Seq<char>,
}

impl View for DeltaSharingError {
    type V = DeltaSharingErrorView;

    closed spec fn view(&self) -> DeltaSharingErrorView {
        DeltaSharingErrorView { kind: self.kind@, message: self.message@ }
    }
}

impl DeltaSharingErrorView {
    pub open spec fn wf(self) -> bool {
        self.kind.wf()
    }

    /// True iff the error is a client error with status 404.
    pub open spec fn is_not_found(self) -> bool {
        self.kind matches ErrorKindView::ClientError { status: 404u16, .. }
    }
}

impl DeltaSharingError {
    /// Build an error from a kind and a message.
    pub fn new(kind: ErrorKind, message: String) -> (r: Self)
        ensures
            r@ == (DeltaSharingErrorView { kind: kind@, message: message@ }),
    {
        Self { kind, message }
    }

    /// The human-readable message of the error.
    pub fn message(&self) -> (r: &str)
        ensures
            r@ == self@.message,
    {
        self.message.as_str()
    }

    /// The kind of the error.
    pub fn kind(&self) -> (r: &ErrorKind)
        ensures
            r@ == self@.kind,
    {
        &self.kind
    }

    /// True iff the error is a client error with status 404.
    pub fn is_not_found(&self) -> (r: bool)
        ensures
            r == self@.is_not_found(),
    {
        match &self.kind {
            ErrorKind::ClientError { status, .. } => *status == 404,
            _ => false,
        }
    }

    /// An `Internal` error with the given message.
    pub fn internal(message: &str) -> (r: Self)
        ensures
            r@.kind == ErrorKindView::Internal,
            r@.message == message@,
            r@.wf(),
    {
        Self::new(ErrorKind::Internal, message.to_owned())
    }

    /// A `Request` error with the given message.
    pub fn request(message: &str) -> (r: Self)
        ensures
            r@.kind == ErrorKindView::Request,
            r@.message == message@,
            r@.wf(),
    {
        Self::new(ErrorKind::Request, message.to_owned())
    }

    /// A `Profile` error with the given message.
    pub fn profile(message: &str) -> (r: Self)
        ensures
            r@.kind == ErrorKindView::Profile,
            r@.message == message@,
            r@.wf(),
    {
        Self::new(ErrorKind::Profile, message.to_owned())
    }

    /// A `ClientError` with the given 4xx status and server error code.
    pub fn client(status: u16, code: String, message: String) -> (r: Self)
        requires
            400 <= status <= 499,
        ensures
            r@.kind == (ErrorKindView::ClientError { status, code: code@ }),
            r@.message == message@,
            r@.wf(),
    {
        Self::new(ErrorKind::ClientError { status, code }, message)
    }

    /// A `ServerError` with the given 5xx status and server error code.
    pub fn server(status: u16, code: String, message: String) -> (r: Self)
        requires
            500 <= status <= 599,
        ensures
            r@.kind == (ErrorKindView::ServerError { status, code: code@ }),
            r@.message == message@,
            r@.wf(),
    {
        Self::new(ErrorKind::ServerError { status, code }, message)
    }

    /// A `ParseResponse` error with the given message.
    pub fn parse_response(message: &str) -> (r: Self)
        ensures
            r@.kind == ErrorKindView::ParseResponse,
            r@.message == message@,
            r@.wf(),
    {
        Self::new(ErrorKind::ParseResponse, message.to_owned())
    }
}

/// The rendering of an error: client and server errors spell out the status
/// number, the server's error code and the message; the other kinds prefix
/// the message with their bracketed name.
pub open spec fn display_of(e: DeltaSharingErrorView) -> Seq<char> {
    match e.kind {
        ErrorKindView::ClientError { status, code } => "Client error: "@ + dec_digits(status as int)
            + " - "@ + code + " - "@ + e.message,
        ErrorKindView::ServerError { status, code } => "Server error: "@ + dec_digits(status as int)
            + " - "@ + code + " - "@ + e.message,
        ErrorKindView::Internal => "[INTERNAL_ERROR] "@ + e.message,
        ErrorKindView::Profile => "[PROFILE_ERROR] "@ + e.message,
        ErrorKindView::Request => "[REQUEST_ERROR] "@ + e.message,
        ErrorKindView::ParseResponse => "[PARSE_RESPONSE_ERROR] "@ + e.message,
    }
}

impl DeltaSharingError {
    /// A human-readable rendering of the error, exactly as [`display_of`]
    /// describes.
    pub fn display_string(&self) -> (r: String)
        ensures
            r@ == display_of(self@),
    {
        let mut out: Vec<char> = Vec::new();
        match &self.kind {
            ErrorKind::ClientError { status, code } => {
                let mut head = chars_vec("Client error: ");
                out.append(&mut head);
                let mut digits = u64_to_dec(*status as u64);
                out.append(&mut digits);
                let mut sep = chars_vec(" - ");
                out.append(&mut sep);
                let mut code_chars = chars_vec(code.as_str());
                out.append(&mut code_chars);
                let mut sep2 = chars_vec(" - ");
                out.append(&mut sep2);
            },
            ErrorKind::ServerError { status, code } => {
                let mut head = chars_vec("Server error: ");
                out.append(&mut head);
                let mut digits = u64_to_dec(*status as u64);
                out.append(&mut digits);
                let mut sep = chars_vec(" - ");
                out.append(&mut sep);
                let mut code_chars = chars_vec(code.as_str());
                out.append(&mut code_chars);
                let mut sep2 = chars_vec(" - ");
                out.append(&mut sep2);
            },
            ErrorKind::Internal => {
                let mut head = chars_vec("[INTERNAL_ERROR] ");
                out.append(&mut head);
            },
            ErrorKind::Profile => {
                let mut head = chars_vec("[PROFILE_ERROR] ");
                out.append(&mut head);
            },
            ErrorKind::Request => {
                let mut head = chars_vec("[REQUEST_ERROR] ");
                out.append(&mut head);
            },
            ErrorKind::ParseResponse => {
                let mut head = chars_vec("[PARSE_RESPONSE_ERROR] ");
                out.append(&mut head);
            },
        }
        let mut msg = chars_vec(self.message.as_str());
        out.append(&mut msg);
        proof {
            assert(out@ =~= display_of(self@));
        }
        string_from_chars(&out)
    }
}

} // verus!
