//! Classification of service responses.
//!
//! Every non-success answer of the service is an untagged JSON object;
//! which rejection it is must be read off the fields that are present.
//! [`classify_response_fields`] performs that structural match in a fixed,
//! documented order; a body matching no known shape is reported as
//! unclassifiable rather than forced into some variant.

use vstd::prelude::*;

use crate::json_fields::{json_str_field, json_str_of, json_u64_field, json_u64_of};
use crate::utils::{dec_str, u64_to_string};

verus! {

/// One service answer, as the closed set of shapes the wire contract
/// allows. The non-`Success` variants carry the decoded body fields.
#[derive(Debug)]
pub enum ApiResponse {
    Success,
    BadRequest { req_id: String, status_code: u16, message: String, error: String },
    Unauthorized { req_id: String, status_code: u16, message: String, error: String },
    Forbidden { req_id: String, status_code: u16, details: String, message: String, error: String },
    /// Deliberately the only rejection without a request id: the wire
    /// contract marks a missing resource by leaving `reqId` out.
    NotFound { error: String, message: String, status_code: u16 },
    UnprocessableContent { req_id: String, status_code: u16, message: String, error: String },
    InternalServerError { req_id: String, status_code: u16, message: String, error: String },
}

/// What the four-field rejection shapes render as.
pub open spec fn rejection_rendering(
    req_id: Seq<char>,
    status_code: u16,
    message: Seq<char>,
    error: Seq<char>,
) -> Seq<char> {
    "req_id: "@ + req_id + "\nstatus_code: "@ + dec_str(status_code as nat) + "\nmessage: "@
        + message + "\nerror: "@ + error
}

/// What a service answer renders as: every decoded field, labelled, one
/// per line — except that a success has no fields to show.
pub open spec fn api_response_rendering(resp: ApiResponse) -> Seq<char> {
    match resp {
        ApiResponse::Success => "ok"@,
        ApiResponse::BadRequest { req_id, status_code, message, error } => rejection_rendering(
            req_id@,
            status_code,
            message@,
            error@,
        ),
        ApiResponse::Unauthorized { req_id, status_code, message, error } => rejection_rendering(
            req_id@,
            status_code,
            message@,
            error@,
        ),
        ApiResponse::Forbidden { req_id, status_code, details, message, error } => (
        rejection_rendering(req_id@, status_code, message@, error@) + "\ndetails: "@ + details@),
        ApiResponse::NotFound { error, message, status_code } => "status_code: "@ + dec_str(
            status_code as nat,
        ) + "\nmessage: "@ + message@ + "\nerror: "@ + error@,
        ApiResponse::UnprocessableContent { req_id, status_code, message, error } => (
        rejection_rendering(req_id@, status_code, message@, error@)),
        ApiResponse::InternalServerError { req_id, status_code, message, error } => (
        rejection_rendering(req_id@, status_code, message@, error@)),
    }
}

impl ApiResponse {
    /// Render the answer for people: every decoded field, labelled.
    pub fn display_string(&self) -> (r: String)
        ensures
            r@ == api_response_rendering(*self),
    {
        match self {
            ApiResponse::Success => String::from_str("ok"),
            ApiResponse::BadRequest { req_id, status_code, message, error } => render_rejection(
                req_id,
                *status_code,
                message,
                error,
            ),
            ApiResponse::Unauthorized { req_id, status_code, message, error } => render_rejection(
                req_id,
                *status_code,
                message,
                error,
            ),
            ApiResponse::Forbidden { req_id, status_code, details, message, error } => {
                let mut s = render_rejection(req_id, *status_code, message, error);
                s.append("\ndetails: ");
                s.append(details.as_str());
                s
            },
            ApiResponse::NotFound { error, message, status_code } => {
                let mut s = String::from_str("status_code: ");
                s.append(u64_to_string(*status_code as u64).as_str());
                s.append("\nmessage: ");
                s.append(message.as_str());
                s.append("\nerror: ");
                s.append(error.as_str());
                s
            },
            ApiResponse::UnprocessableContent { req_id, status_code, message, error } => {
                render_rejection(req_id, *status_code, message, error)
            },
            ApiResponse::InternalServerError { req_id, status_code, message, error } => {
                render_rejection(req_id, *status_code, message, error)
            },
        }
    }
}

/// Build the rendering the four-field shapes share.
fn render_rejection(req_id: &String, status_code: u16, message: &String, error: &String) -> (r:
    String)
    ensures
        r@ == rejection_rendering(req_id@, status_code, message@, error@),
{
    let mut s = String::from_str("req_id: ");
    s.append(req_id.as_str());
    s.append("\nstatus_code: ");
    s.append(u64_to_string(status_code as u64).as_str());
    s.append("\nmessage: ");
    s.append(message.as_str());
    s.append("\nerror: ");
    s.append(error.as_str());
    s
}

/// The classifier's input: the five fields a rejection body may carry,
/// each present or absent.
pub struct ResponseFields {
    pub req_id: Option<String>,
    pub status_code: Option<u16>,
    pub message: Option<String>,
    pub error: Option<String>,
    pub details: Option<String>,
}

/// The decoded fields at the specification level.
pub ghost struct ResponseFieldsView {
    pub req_id: Option<Seq<char>>,
    pub status_code: Option<u16>,
    pub message: Option<Seq<char>>,
    pub error: Option<Seq<char>>,
    pub details: Option<Seq<char>>,
}

impl View for ResponseFields {
    type V = ResponseFieldsView;

    open spec fn view(&self) -> ResponseFieldsView {
        ResponseFieldsView {
            req_id: match self.req_id {
                Some(s) => Some(s@),
                None => None,
            },
            status_code: self.status_code,
            message: match self.message {
                Some(s) => Some(s@),
                None => None,
            },
            error: match self.error {
                Some(s) => Some(s@),
                None => None,
            },
            details: match self.details {
                Some(s) => Some(s@),
                None => None,
            },
        }
    }
}

/// The body carries the `error` / `message` / `status_code` triple that
/// every rejection shape requires.
pub open spec fn has_error_triple(f: ResponseFieldsView) -> bool {
    f.error is Some && f.message is Some && f.status_code is Some
}

/// Field presence matches the missing-resource shape: the triple without
/// a request id.
pub open spec fn shape_not_found(f: ResponseFieldsView) -> bool {
    has_error_triple(f) && f.req_id is None
}

/// Field presence matches the forbidden shape: the triple, a request id,
/// and the extra `details` field that only this shape carries.
pub open spec fn shape_forbidden(f: ResponseFieldsView) -> bool {
    has_error_triple(f) && f.req_id is Some && f.details is Some
}

/// Field presence matches the four shapes that differ only in their
/// status code: the triple and a request id, without details.
pub open spec fn shape_coded(f: ResponseFieldsView) -> bool {
    has_error_triple(f) && f.req_id is Some && f.details is None
}

/// The fields match one of the known rejection shapes.
pub open spec fn classifiable(f: ResponseFieldsView) -> bool {
    shape_not_found(f) || shape_forbidden(f) || (shape_coded(f) && (f.status_code.unwrap() == 400
        || f.status_code.unwrap() == 401 || f.status_code.unwrap() == 422
        || f.status_code.unwrap() == 500))
}

/// What the classifier owes: `resp` is exactly the variant selected by
/// `f`'s field presence, in the fixed match order (missing `reqId` first,
/// then the `details` shape, then the status-coded shapes), with every
/// carried field copied from `f`.
pub open spec fn classified_correctly(f: ResponseFieldsView, resp: ApiResponse) -> bool {
    if shape_not_found(f) {
        resp matches ApiResponse::NotFound { error, message, status_code } && error@
            == f.error.unwrap() && message@ == f.message.unwrap() && status_code
            == f.status_code.unwrap()
    } else if shape_forbidden(f) {
        resp matches ApiResponse::Forbidden { req_id, status_code, details, message, error }
            && req_id@ == f.req_id.unwrap() && status_code == f.status_code.unwrap() && details@
            == f.details.unwrap() && message@ == f.message.unwrap() && error@ == f.error.unwrap()
    } else if shape_coded(f) && f.status_code.unwrap() == 400 {
        resp matches ApiResponse::BadRequest { req_id, status_code, message, error } && req_id@
            == f.req_id.unwrap() && status_code == f.status_code.unwrap() && message@
            == f.message.unwrap() && error@ == f.error.unwrap()
    } else if shape_coded(f) && f.status_code.unwrap() == 401 {
        resp matches ApiResponse::Unauthorized { req_id, status_code, message, error } && req_id@
            == f.req_id.unwrap() && status_code == f.status_code.unwrap() && message@
            == f.message.unwrap() && error@ == f.error.unwrap()
    } else if shape_coded(f) && f.status_code.unwrap() == 422 {
        resp matches ApiResponse::UnprocessableContent { req_id, status_code, message, error }
            && req_id@ == f.req_id.unwrap() && status_code == f.status_code.unwrap() && message@
            == f.message.unwrap() && error@ == f.error.unwrap()
    } else if shape_coded(f) && f.status_code.unwrap() == 500 {
        resp matches ApiResponse::InternalServerError { req_id, status_code, message, error }
            && req_id@ == f.req_id.unwrap() && status_code == f.status_code.unwrap() && message@
            == f.message.unwrap() && error@ == f.error.unwrap()
    } else {
        false
    }
}

/// Match the decoded fields against the known rejection shapes, in a
/// fixed order: first the shape without a request id (missing resource),
/// then the one with `details` (forbidden), then the four shapes told
/// apart by their status code. No match is reported as `None`, never
/// guessed into a variant.
pub fn classify_response_fields(fields: ResponseFields) -> (r: Option<ApiResponse>)
    ensures
        r is Some <==> classifiable(fields@),
        r matches Some(resp) ==> classified_correctly(fields@, resp),
{
    let ResponseFields { req_id, status_code, message, error, details } = fields;
    match (error, message, status_code) {
        (Some(error), Some(message), Some(status_code)) => match req_id {
            None => Some(ApiResponse::NotFound { error, message, status_code }),
            Some(req_id) => match details {
                Some(details) => Some(
                    ApiResponse::Forbidden { req_id, status_code, details, message, error },
                ),
                None => {
                    if status_code == 400 {
                        Some(ApiResponse::BadRequest { req_id, status_code, message, error })
                    } else if status_code == 401 {
                        Some(ApiResponse::Unauthorized { req_id, status_code, message, error })
                    } else if status_code == 422 {
                        Some(
                            ApiResponse::UnprocessableContent {
                                req_id,
                                status_code,
                                message,
                                error,
                            },
                        )
                    } else if status_code == 500 {
                        Some(
                            ApiResponse::InternalServerError {
                                req_id,
                                status_code,
                                message,
                                error,
                            },
                        )
                    } else {
                        None
                    }
                },
            },
        },
        _ => None,
    }
}

/// A body carrying the `error` / `message` / `status_code` triple but no
/// request id is always classified as `NotFound`, never as any other
/// rejection variant, whatever else the body holds.
pub proof fn lemma_triple_without_req_id_is_not_found(f: ResponseFieldsView, resp: ApiResponse)
    requires
        has_error_triple(f),
        f.req_id is None,
        classified_correctly(f, resp),
    ensures
        resp is NotFound,
{
}

/// The status code a body's `statusCode` field yields: present and small
/// enough to be an HTTP status code, or absent.
pub open spec fn status_code_of(raw: Option<u64>) -> Option<u16> {
    match raw {
        Some(v) => if v <= 65535 {
            Some(v as u16)
        } else {
            None
        },
        None => None,
    }
}

/// The five decoded fields of a body, at the specification level.
pub open spec fn fields_of_body(body: Seq<u8>) -> ResponseFieldsView {
    ResponseFieldsView {
        req_id: json_str_of(body, "reqId"@),
        status_code: status_code_of(json_u64_of(body, "statusCode"@)),
        message: json_str_of(body, "message"@),
        error: json_str_of(body, "error"@),
        details: json_str_of(body, "details"@),
    }
}

/// Decode the five recognised fields of a rejection body. A status code
/// that does not fit a `u16` is treated as absent.
pub fn response_fields_of_body(body: &[u8]) -> (r: ResponseFields)
    ensures
        r@ == fields_of_body(body@),
{
    let code = json_u64_field(body, "statusCode");
    let status_code: Option<u16> = match code {
        Some(v) => if v <= 65535 {
            Some(v as u16)
        } else {
            None
        },
        None => None,
    };
    ResponseFields {
        req_id: json_str_field(body, "reqId"),
        status_code,
        message: json_str_field(body, "message"),
        error: json_str_field(body, "error"),
        details: json_str_field(body, "details"),
    }
}

/// Classify a rejection body's bytes: decode the five fields, then match
/// the shapes.
pub fn classify_body(body: &[u8]) -> (r: Option<ApiResponse>)
    ensures
        r is Some <==> classifiable(fields_of_body(body@)),
        r matches Some(resp) ==> classified_correctly(fields_of_body(body@), resp),
{
    classify_response_fields(response_fields_of_body(body))
}

} // verus!
