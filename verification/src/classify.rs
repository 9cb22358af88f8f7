//! The response classifier: the protocol's central decision rule.
//!
//! One routine, generic over the expected success payload, turns a raw
//! status and body into a typed value or one of the fixed error kinds:
//! a 200 body is read as the payload, a 400, 401, 403, 404 or 500 body is
//! read as the error envelope, and any other status is an internal error
//! whose body is never read.

use vstd::prelude::*;

verus! {

use crate::decimal::dec_u64_of;
use crate::decimal::parse_dec_u64;
use crate::envelope::JsonPayload;
use crate::error::DeltaSharingError;
use crate::error::DeltaSharingErrorView;
use crate::error::ErrorKindView;
use crate::response::ErrorResponse;
use crate::response::TableVersionResponse;

/// The 4xx statuses the protocol distinguishes.
pub open spec fn is_client_error_status(status: u16) -> bool {
    status == 400 || status == 401 || status == 403 || status == 404
}

/// The error reported when a response body or header does not parse.
pub open spec fn parse_failure_view() -> DeltaSharingErrorView {
    DeltaSharingErrorView {
        kind: ErrorKindView::ParseResponse,
        message: "failed to parse server response"@,
    }
}

/// The error reported for a status the protocol does not know.
pub open spec fn unknown_response_view() -> DeltaSharingErrorView {
    DeltaSharingErrorView { kind: ErrorKindView::Internal, message: "unknown server response"@ }
}

/// The error a non-success response classifies to: client and server errors
/// carry the status and the envelope's error code, anything else is the
/// unknown-response error, whose body is never read.
pub open spec fn classify_error_spec(status: u16, body: Seq<char>) -> DeltaSharingErrorView {
    if is_client_error_status(status) {
        match <ErrorResponse as JsonPayload>::body_of(body) {
            Some(e) => DeltaSharingErrorView {
                kind: ErrorKindView::ClientError { status, code: e.error_code },
                message: e.message,
            },
            None => parse_failure_view(),
        }
    } else if status == 500 {
        match <ErrorResponse as JsonPayload>::body_of(body) {
            Some(e) => DeltaSharingErrorView {
                kind: ErrorKindView::ServerError { status, code: e.error_code },
                message: e.message,
            },
            None => parse_failure_view(),
        }
    } else {
        unknown_response_view()
    }
}

/// What [`classify`] returns for a status and body.
pub open spec fn classify_spec<T: JsonPayload>(status: u16, body: Seq<char>) -> Result<
    T::V,
    DeltaSharingErrorView,
> {
    if status == 200 {
        match T::body_of(body) {
            Some(v) => Ok(v),
            None => Err(parse_failure_view()),
        }
    } else {
        Err(classify_error_spec(status, body))
    }
}

/// Classify a non-success response, exactly as [`classify_error_spec`]
/// describes.
pub fn classify_error(status: u16, body: &str) -> (r: DeltaSharingError)
    ensures
        r@ == classify_error_spec(status, body@),
        r@.wf(),
{
    if status == 400 || status == 401 || status == 403 || status == 404 {
        match ErrorResponse::parse_body(body) {
            Some(e) => DeltaSharingError::client(
                status,
                e.error_code().to_owned(),
                e.message().to_owned(),
            ),
            None => DeltaSharingError::parse_response("failed to parse server response"),
        }
    } else if status == 500 {
        match ErrorResponse::parse_body(body) {
            Some(e) => DeltaSharingError::server(
                status,
                e.error_code().to_owned(),
                e.message().to_owned(),
            ),
            None => DeltaSharingError::parse_response("failed to parse server response"),
        }
    } else {
        DeltaSharingError::internal("unknown server response")
    }
}

/// Classify a response, exactly as [`classify_spec`] describes: the typed
/// payload of a 200 body, the classified error otherwise.
pub fn classify<T: JsonPayload>(status: u16, body: &str) -> (r: Result<T, DeltaSharingError>)
    ensures
        match r {
            Ok(v) => classify_spec::<T>(status, body@) == Ok::<T::V, DeltaSharingErrorView>(v@),
            Err(e) => classify_spec::<T>(status, body@) == Err::<T::V, DeltaSharingErrorView>(e@)
                && e@.wf(),
        },
{
    if status == 200 {
        match T::parse_body(body) {
            Some(v) => Ok(v),
            None => Err(DeltaSharingError::parse_response("failed to parse server response")),
        }
    } else {
        Err(classify_error(status, body))
    }
}

/// The error reported when the version header is missing or not a number.
pub open spec fn version_header_failure_view() -> DeltaSharingErrorView {
    DeltaSharingErrorView {
        kind: ErrorKindView::ParseResponse,
        message: "parsing delta-table-version header failed"@,
    }
}

/// What [`table_version_from_response`] returns: on a 200 response the
/// `Delta-Table-Version` header must be present and hold an unsigned
/// decimal number, which is never defaulted; any other status classifies as
/// elsewhere.
pub open spec fn table_version_spec(status: u16, header: Option<Seq<char>>, body: Seq<char>) -> Result<
    u64,
    DeltaSharingErrorView,
> {
    if status == 200 {
        match header {
            Some(h) => match dec_u64_of(h) {
                Some(v) => Ok(v),
                None => Err(version_header_failure_view()),
            },
            None => Err(version_header_failure_view()),
        }
    } else {
        Err(classify_error_spec(status, body))
    }
}

/// Read a table-version response, exactly as [`table_version_spec`]
/// describes. `header` is the value of the `Delta-Table-Version` response
/// header, if the response carried one.
pub fn table_version_from_response(status: u16, header: Option<&str>, body: &str) -> (r: Result<
    TableVersionResponse,
    DeltaSharingError,
>)
    ensures
        match r {
            Ok(v) => table_version_spec(status, header.deep_view(), body@) == Ok::<
                u64,
                DeltaSharingErrorView,
            >(v@),
            Err(e) => table_version_spec(status, header.deep_view(), body@) == Err::<
                u64,
                DeltaSharingErrorView,
            >(e@) && e@.wf(),
        },
{
    if status == 200 {
        match header {
            Some(h) => {
                let cs = crate::text::chars_vec(h);
                match parse_dec_u64(&cs) {
                    Some(v) => Ok(TableVersionResponse::new(v)),
                    None => Err(
                        DeltaSharingError::parse_response(
                            "parsing delta-table-version header failed",
                        ),
                    ),
                }
            },
            None => Err(
                DeltaSharingError::parse_response("parsing delta-table-version header failed"),
            ),
        }
    } else {
        Err(classify_error(status, body))
    }
}

} // verus!
