//! HTTP problems of the canvas API: the result code and status of each kind of
//! failure, their mapping from auth problems, framework errors and product
//! errors, and back to framework error kinds; plus the trace header value.

use vstd::prelude::*;
use vstd::string::StringSliceAdditionalSpecFns;
use axum::http::header::HeaderValue;
use crate::domain::CanvasProductError;

verus! {

#[verifier::external_type_specification]
#[verifier::external_body]
pub struct ExHeaderValue(HeaderValue);

/// Result codes of the SDKWork API envelope that canvas problems use; `Other`
/// stands for every code not listed here.
#[derive(Debug, Clone, Copy, PartialEq, Eq, Structural)]
pub enum ResultCode {
    ValidationError,
    MalformedRequest,
    InvalidParameter,
    MissingRequiredField,
    AuthenticationRequired,
    TokenExpired,
    InvalidToken,
    SessionRevoked,
    PermissionRequired,
    InsufficientScope,
    TenantAccessDenied,
    OrganizationAccessDenied,
    NotFound,
    Conflict,
    ServiceUnavailable,
    InternalError,
    Other,
}

/// Kinds of web framework errors; `Other` stands for every kind not listed here.
#[derive(Debug, Clone, Copy, PartialEq, Eq, Structural)]
pub enum WebFrameworkErrorKind {
    BadRequest,
    Forbidden,
    NotFound,
    Conflict,
    MissingCredentials,
    DependencyUnavailable,
    InternalServerError,
    Other,
}

/// A web framework error, as the framework renders it into a problem response.
#[derive(Debug)]
pub struct WebFrameworkError {
    pub kind: WebFrameworkErrorKind,
    pub message: String,
}

/// A problem reported by request authentication.
#[derive(Debug)]
pub struct AuthProblem {
    pub code: String,
    pub detail: String,
    pub status: u16,
}

/// An API failure: a message, an HTTP status and a result code.
#[derive(Debug)]
pub struct ApiProblem {
    pub message: String,
    status: u16,
    code: ResultCode,
}

pub const STATUS_OK: u16 = 200;

pub const STATUS_CREATED: u16 = 201;

pub const STATUS_ACCEPTED: u16 = 202;

pub const STATUS_BAD_REQUEST: u16 = 400;

pub const STATUS_FORBIDDEN: u16 = 403;

pub const STATUS_NOT_FOUND: u16 = 404;

pub const STATUS_CONFLICT: u16 = 409;

pub const STATUS_INTERNAL_SERVER_ERROR: u16 = 500;

/// The message that replaces the detail of internal product errors.
pub const UNEXPECTED_ERROR_MESSAGE: &'static str = "An unexpected error occurred";

/// The result code of a framework error kind.
pub open spec fn code_for_kind(kind: WebFrameworkErrorKind) -> ResultCode {
    match kind {
        WebFrameworkErrorKind::BadRequest => ResultCode::ValidationError,
        WebFrameworkErrorKind::Forbidden => ResultCode::PermissionRequired,
        WebFrameworkErrorKind::NotFound => ResultCode::NotFound,
        WebFrameworkErrorKind::Conflict => ResultCode::Conflict,
        WebFrameworkErrorKind::MissingCredentials => ResultCode::AuthenticationRequired,
        WebFrameworkErrorKind::DependencyUnavailable => ResultCode::ServiceUnavailable,
        _ => ResultCode::InternalError,
    }
}

/// The framework error kind a result code is answered with.
pub open spec fn kind_for_code(code: ResultCode) -> WebFrameworkErrorKind {
    match code {
        ResultCode::ValidationError
        | ResultCode::MalformedRequest
        | ResultCode::InvalidParameter
        | ResultCode::MissingRequiredField => WebFrameworkErrorKind::BadRequest,
        ResultCode::AuthenticationRequired
        | ResultCode::TokenExpired
        | ResultCode::InvalidToken
        | ResultCode::SessionRevoked => WebFrameworkErrorKind::MissingCredentials,
        ResultCode::PermissionRequired
        | ResultCode::InsufficientScope
        | ResultCode::TenantAccessDenied
        | ResultCode::OrganizationAccessDenied => WebFrameworkErrorKind::Forbidden,
        ResultCode::NotFound => WebFrameworkErrorKind::NotFound,
        ResultCode::Conflict => WebFrameworkErrorKind::Conflict,
        ResultCode::ServiceUnavailable => WebFrameworkErrorKind::DependencyUnavailable,
        _ => WebFrameworkErrorKind::InternalServerError,
    }
}

/// The result code of an auth problem code; codes that canvas does not name
/// take `legacy`, their legacy wire mapping.
pub open spec fn auth_code(code: Seq<char>, legacy: ResultCode) -> ResultCode {
    if code == "canvas.auth.missing_principal"@ {
        ResultCode::AuthenticationRequired
    } else if code == "canvas.auth.tenant_mismatch"@ {
        ResultCode::TenantAccessDenied
    } else if code == "canvas.auth.organization_mismatch"@ {
        ResultCode::OrganizationAccessDenied
    } else if code == "canvas.auth.operator_mismatch"@ {
        ResultCode::InsufficientScope
    } else if code == "canvas.permission_denied"@ {
        ResultCode::PermissionRequired
    } else {
        legacy
    }
}

/// `problem` carries `message`, `status` and `code`.
pub open spec fn is_problem(problem: ApiProblem, message: Seq<char>, status: u16, code: ResultCode) -> bool {
    problem.message_text() == message && problem.http_status() == status && problem.result_code() == code
}

/// The status and code of a product error; internal errors carry a generic
/// message, the others their detail.
pub open spec fn maps_product_error(problem: ApiProblem, error: CanvasProductError) -> bool {
    match error {
        CanvasProductError::Validation(d) => is_problem(problem, d@, STATUS_BAD_REQUEST, ResultCode::ValidationError),
        CanvasProductError::Conflict(d) => is_problem(problem, d@, STATUS_CONFLICT, ResultCode::Conflict),
        CanvasProductError::NotFound(d) => is_problem(problem, d@, STATUS_NOT_FOUND, ResultCode::NotFound),
        CanvasProductError::PermissionDenied(d) => is_problem(
            problem,
            d@,
            STATUS_FORBIDDEN,
            ResultCode::PermissionRequired,
        ),
        CanvasProductError::Internal(_) => is_problem(
            problem,
            UNEXPECTED_ERROR_MESSAGE@,
            STATUS_INTERNAL_SERVER_ERROR,
            ResultCode::InternalError,
        ),
    }
}

fn code_of_kind(kind: WebFrameworkErrorKind) -> (code: ResultCode)
    ensures
        code == code_for_kind(kind),
{
    match kind {
        WebFrameworkErrorKind::BadRequest => ResultCode::ValidationError,
        WebFrameworkErrorKind::Forbidden => ResultCode::PermissionRequired,
        WebFrameworkErrorKind::NotFound => ResultCode::NotFound,
        WebFrameworkErrorKind::Conflict => ResultCode::Conflict,
        WebFrameworkErrorKind::MissingCredentials => ResultCode::AuthenticationRequired,
        WebFrameworkErrorKind::DependencyUnavailable => ResultCode::ServiceUnavailable,
        _ => ResultCode::InternalError,
    }
}

fn kind_of_code(code: ResultCode) -> (kind: WebFrameworkErrorKind)
    ensures
        kind == kind_for_code(code),
{
    match code {
        ResultCode::ValidationError
        | ResultCode::MalformedRequest
        | ResultCode::InvalidParameter
        | ResultCode::MissingRequiredField => WebFrameworkErrorKind::BadRequest,
        ResultCode::AuthenticationRequired
        | ResultCode::TokenExpired
        | ResultCode::InvalidToken
        | ResultCode::SessionRevoked => WebFrameworkErrorKind::MissingCredentials,
        ResultCode::PermissionRequired
        | ResultCode::InsufficientScope
        | ResultCode::TenantAccessDenied
        | ResultCode::OrganizationAccessDenied => WebFrameworkErrorKind::Forbidden,
        ResultCode::NotFound => WebFrameworkErrorKind::NotFound,
        ResultCode::Conflict => WebFrameworkErrorKind::Conflict,
        ResultCode::ServiceUnavailable => WebFrameworkErrorKind::DependencyUnavailable,
        _ => WebFrameworkErrorKind::InternalServerError,
    }
}

impl ApiProblem {
    /// The message of the problem.
    pub closed spec fn message_text(&self) -> Seq<char> {
        self.message@
    }

    /// The HTTP status of the problem.
    pub closed spec fn http_status(&self) -> u16 {
        self.status
    }

    /// The result code of the problem.
    pub closed spec fn result_code(&self) -> ResultCode {
        self.code
    }

    /// The HTTP status of the problem.
    pub fn status(&self) -> (status: u16)
        ensures
            status == self.http_status(),
    {
        self.status
    }

    /// The result code of the problem.
    pub fn code(&self) -> (code: ResultCode)
        ensures
            code == self.result_code(),
    {
        self.code
    }

    pub fn bad_request(message: String) -> (problem: Self)
        ensures
            is_problem(problem, message@, STATUS_BAD_REQUEST, ResultCode::ValidationError),
    {
        ApiProblem { message, status: STATUS_BAD_REQUEST, code: ResultCode::ValidationError }
    }

    pub fn forbidden(message: String) -> (problem: Self)
        ensures
            is_problem(problem, message@, STATUS_FORBIDDEN, ResultCode::PermissionRequired),
    {
        ApiProblem { message, status: STATUS_FORBIDDEN, code: ResultCode::PermissionRequired }
    }

    pub fn not_found(message: String) -> (problem: Self)
        ensures
            is_problem(problem, message@, STATUS_NOT_FOUND, ResultCode::NotFound),
    {
        ApiProblem { message, status: STATUS_NOT_FOUND, code: ResultCode::NotFound }
    }

    pub fn conflict(message: String) -> (problem: Self)
        ensures
            is_problem(problem, message@, STATUS_CONFLICT, ResultCode::Conflict),
    {
        ApiProblem { message, status: STATUS_CONFLICT, code: ResultCode::Conflict }
    }

    pub fn internal(message: String) -> (problem: Self)
        ensures
            is_problem(problem, message@, STATUS_INTERNAL_SERVER_ERROR, ResultCode::InternalError),
    {
        ApiProblem { message, status: STATUS_INTERNAL_SERVER_ERROR, code: ResultCode::InternalError }
    }

    /// The problem of a failed authentication: its detail and status, with the
    /// code that canvas gives its auth codes, `legacy_code` for the others.
    pub fn from_auth(problem: AuthProblem, legacy_code: ResultCode) -> (res: Self)
        ensures
            is_problem(res, problem.detail@, problem.status, auth_code(problem.code@, legacy_code)),
    {
        let code = if problem.code == String::from_str("canvas.auth.missing_principal") {
            ResultCode::AuthenticationRequired
        } else if problem.code == String::from_str("canvas.auth.tenant_mismatch") {
            ResultCode::TenantAccessDenied
        } else if problem.code == String::from_str("canvas.auth.organization_mismatch") {
            ResultCode::OrganizationAccessDenied
        } else if problem.code == String::from_str("canvas.auth.operator_mismatch") {
            ResultCode::InsufficientScope
        } else if problem.code == String::from_str("canvas.permission_denied") {
            ResultCode::PermissionRequired
        } else {
            legacy_code
        };
        ApiProblem { message: problem.detail, status: problem.status, code }
    }

    /// The problem of a framework error answered with `status`.
    pub fn from_web_framework(error: WebFrameworkError, status: u16) -> (res: Self)
        ensures
            is_problem(res, error.message@, status, code_for_kind(error.kind)),
    {
        let code = code_of_kind(error.kind);
        ApiProblem { message: error.message, status, code }
    }

    /// The framework error that renders this problem.
    pub fn framework_error(&self) -> (error: WebFrameworkError)
        ensures
            error.kind == kind_for_code(self.result_code()),
            error.message@ == self.message_text(),
    {
        WebFrameworkError { kind: kind_of_code(self.code), message: self.message.clone() }
    }
}

/// The API problem of a product error.
pub fn map_product_error(error: CanvasProductError) -> (problem: ApiProblem)
    ensures
        maps_product_error(problem, error),
{
    match error {
        CanvasProductError::Validation(detail) => ApiProblem::bad_request(detail),
        CanvasProductError::Conflict(detail) => ApiProblem::conflict(detail),
        CanvasProductError::NotFound(detail) => ApiProblem::not_found(detail),
        CanvasProductError::PermissionDenied(detail) => ApiProblem::forbidden(detail),
        CanvasProductError::Internal(_) => ApiProblem::internal(
            String::from_str(UNEXPECTED_ERROR_MESSAGE),
        ),
    }
}

/// The kind of framework error that a product error is rendered as.
pub open spec fn product_error_kind(error: CanvasProductError) -> WebFrameworkErrorKind {
    match error {
        CanvasProductError::Validation(_) => WebFrameworkErrorKind::BadRequest,
        CanvasProductError::Conflict(_) => WebFrameworkErrorKind::Conflict,
        CanvasProductError::NotFound(_) => WebFrameworkErrorKind::NotFound,
        CanvasProductError::PermissionDenied(_) => WebFrameworkErrorKind::Forbidden,
        CanvasProductError::Internal(_) => WebFrameworkErrorKind::InternalServerError,
    }
}

/// Law: a framework error turned into a problem renders back as the same kind
/// of framework error, with its message; unlisted kinds render as internal
/// server errors.
pub proof fn law_framework_error_round_trip(problem: ApiProblem, error: WebFrameworkError, status: u16)
    requires
        is_problem(problem, error.message@, status, code_for_kind(error.kind)),
    ensures
        kind_for_code(problem.result_code()) == (if error.kind == WebFrameworkErrorKind::Other {
            WebFrameworkErrorKind::InternalServerError
        } else {
            error.kind
        }),
        problem.message_text() == error.message@,
{
}

/// Law: a product error renders as the framework error kind of its variant, and
/// an internal error never exposes its detail.
pub proof fn law_product_error_rendering(problem: ApiProblem, error: CanvasProductError)
    requires
        maps_product_error(problem, error),
    ensures
        kind_for_code(problem.result_code()) == product_error_kind(error),
        error is Internal ==> problem.message_text() == UNEXPECTED_ERROR_MESSAGE@,
{
}

/// Law: the auth codes that canvas names render as missing credentials (for a
/// missing principal) or as forbidden (for every mismatch and denied permission).
pub proof fn law_auth_problem_rendering(code: Seq<char>, legacy: ResultCode)
    ensures
        code == "canvas.auth.missing_principal"@ ==> kind_for_code(auth_code(code, legacy))
            == WebFrameworkErrorKind::MissingCredentials,
        (code == "canvas.auth.tenant_mismatch"@ || code == "canvas.auth.organization_mismatch"@
            || code == "canvas.auth.operator_mismatch"@ || code == "canvas.permission_denied"@)
            ==> kind_for_code(auth_code(code, legacy)) == WebFrameworkErrorKind::Forbidden,
{
    reveal_strlit("canvas.auth.missing_principal");
    reveal_strlit("canvas.auth.tenant_mismatch");
    reveal_strlit("canvas.auth.organization_mismatch");
    reveal_strlit("canvas.auth.operator_mismatch");
    reveal_strlit("canvas.permission_denied");
    let missing = "canvas.auth.missing_principal"@;
    assert(missing.len() != "canvas.auth.tenant_mismatch"@.len());
    assert(missing.len() != "canvas.auth.organization_mismatch"@.len());
    assert(missing[12] != "canvas.auth.operator_mismatch"@[12]);
    assert(missing.len() != "canvas.permission_denied"@.len());
}

/// Whether a byte may stand in an HTTP header value: a tab, or a byte from 32
/// upward other than DEL (127).
pub open spec fn is_header_value_byte(b: u8) -> bool {
    (b >= 32 && b != 127) || b == 9
}

/// Whether every byte of `bytes` may stand in an HTTP header value.
pub open spec fn is_header_value(bytes: Seq<u8>) -> bool {
    forall|i: int| 0 <= i < bytes.len() ==> is_header_value_byte(#[trigger] bytes[i])
}

/// An HTTP header value together with the bytes it holds.
pub struct TraceHeader {
    value: HeaderValue,
    bytes: Ghost<Seq<u8>>,
}

impl TraceHeader {
    /// The bytes of the header value.
    pub closed spec fn bytes(&self) -> Seq<u8> {
        self.bytes@
    }

    /// The header value, to be set on a response.
    pub fn into_header_value(self) -> HeaderValue {
        self.value
    }
}

/// Calls `http::HeaderValue::from_str`: it succeeds exactly when every UTF-8
/// byte of the text is a tab or a byte from 32 upward other than 127, and the
/// value then holds the text's bytes (`as_bytes` gives them back).
#[verifier::external_body]
fn header_value_from_str(text: &str) -> (res: Option<TraceHeader>)
    ensures
        res is Some <==> is_header_value(text.spec_bytes()),
        res matches Some(h) ==> h.bytes() == text.spec_bytes(),
{
    match HeaderValue::from_str(text) {
        Ok(value) => Some(TraceHeader { value, bytes: Ghost(text.spec_bytes()) }),
        Err(_) => None,
    }
}

/// The value of the trace header for a trace id, when the id can be sent as a
/// header value: it holds the id's bytes. Responses carry the header only then.
pub fn trace_header_value(trace_id: &str) -> (value: Option<TraceHeader>)
    ensures
        value is Some <==> is_header_value(trace_id.spec_bytes()),
        value matches Some(h) ==> h.bytes() == trace_id.spec_bytes(),
{
    header_value_from_str(trace_id)
}

} // verus!
