use canvas_assembly::domain::CanvasProductError;
use canvas_assembly::response::{
    map_product_error, trace_header_value, ApiProblem, AuthProblem, ResultCode, WebFrameworkError,
    WebFrameworkErrorKind,
};

#[test]
fn problem_constructors_set_status_and_code() {
    let cases = [
        (ApiProblem::bad_request("bad".to_string()), 400, ResultCode::ValidationError),
        (ApiProblem::forbidden("no".to_string()), 403, ResultCode::PermissionRequired),
        (ApiProblem::not_found("gone".to_string()), 404, ResultCode::NotFound),
        (ApiProblem::conflict("clash".to_string()), 409, ResultCode::Conflict),
        (ApiProblem::internal("boom".to_string()), 500, ResultCode::InternalError),
    ];
    for (problem, status, code) in cases {
        assert_eq!(problem.status(), status);
        assert_eq!(problem.code(), code);
    }
}

fn auth(code: &str) -> AuthProblem {
    AuthProblem { code: code.to_string(), detail: format!("detail of {code}"), status: 401 }
}

#[test]
fn auth_problems_map_canvas_codes() {
    let cases = [
        ("canvas.auth.missing_principal", ResultCode::AuthenticationRequired, WebFrameworkErrorKind::MissingCredentials),
        ("canvas.auth.tenant_mismatch", ResultCode::TenantAccessDenied, WebFrameworkErrorKind::Forbidden),
        ("canvas.auth.organization_mismatch", ResultCode::OrganizationAccessDenied, WebFrameworkErrorKind::Forbidden),
        ("canvas.auth.operator_mismatch", ResultCode::InsufficientScope, WebFrameworkErrorKind::Forbidden),
        ("canvas.permission_denied", ResultCode::PermissionRequired, WebFrameworkErrorKind::Forbidden),
    ];
    for (code, expected, kind) in cases {
        let problem = ApiProblem::from_auth(auth(code), ResultCode::Other);
        assert_eq!(problem.code(), expected, "{code}");
        assert_eq!(problem.status(), 401);
        assert_eq!(problem.message, format!("detail of {code}"));
        assert_eq!(problem.framework_error().kind, kind);
    }
    let legacy = ApiProblem::from_auth(auth("legacy.invalid_token"), ResultCode::InvalidToken);
    assert_eq!(legacy.code(), ResultCode::InvalidToken);
    assert_eq!(legacy.framework_error().kind, WebFrameworkErrorKind::MissingCredentials);
}

#[test]
fn framework_errors_round_trip_through_problems() {
    let kinds = [
        WebFrameworkErrorKind::BadRequest,
        WebFrameworkErrorKind::Forbidden,
        WebFrameworkErrorKind::NotFound,
        WebFrameworkErrorKind::Conflict,
        WebFrameworkErrorKind::MissingCredentials,
        WebFrameworkErrorKind::DependencyUnavailable,
        WebFrameworkErrorKind::InternalServerError,
    ];
    for kind in kinds {
        let problem = ApiProblem::from_web_framework(
            WebFrameworkError { kind, message: "message".to_string() },
            418,
        );
        assert_eq!(problem.status(), 418);
        let back = problem.framework_error();
        assert_eq!(back.kind, kind);
        assert_eq!(back.message, "message");
    }
    let other = ApiProblem::from_web_framework(
        WebFrameworkError { kind: WebFrameworkErrorKind::Other, message: "m".to_string() },
        429,
    );
    assert_eq!(other.code(), ResultCode::InternalError);
    assert_eq!(other.framework_error().kind, WebFrameworkErrorKind::InternalServerError);
}

#[test]
fn codes_render_as_their_framework_kinds() {
    let cases = [
        (ResultCode::MalformedRequest, WebFrameworkErrorKind::BadRequest),
        (ResultCode::InvalidParameter, WebFrameworkErrorKind::BadRequest),
        (ResultCode::MissingRequiredField, WebFrameworkErrorKind::BadRequest),
        (ResultCode::TokenExpired, WebFrameworkErrorKind::MissingCredentials),
        (ResultCode::SessionRevoked, WebFrameworkErrorKind::MissingCredentials),
        (ResultCode::ServiceUnavailable, WebFrameworkErrorKind::DependencyUnavailable),
        (ResultCode::Other, WebFrameworkErrorKind::InternalServerError),
    ];
    for (code, kind) in cases {
        let problem = ApiProblem::from_auth(auth("elsewhere"), code);
        assert_eq!(problem.framework_error().kind, kind, "{code:?}");
    }
}

#[test]
fn product_errors_map_to_problems_and_hide_internal_detail() {
    let validation = map_product_error(CanvasProductError::Validation("Invalid content".to_string()));
    assert_eq!((validation.status(), validation.code()), (400, ResultCode::ValidationError));
    assert_eq!(validation.message, "Invalid content");
    let conflict = map_product_error(CanvasProductError::Conflict("page Drive version has changed".to_string()));
    assert_eq!((conflict.status(), conflict.code()), (409, ResultCode::Conflict));
    assert_eq!(conflict.framework_error().kind, WebFrameworkErrorKind::Conflict);
    let missing = map_product_error(CanvasProductError::NotFound("page".to_string()));
    assert_eq!((missing.status(), missing.code()), (404, ResultCode::NotFound));
    let denied = map_product_error(CanvasProductError::PermissionDenied("scope".to_string()));
    assert_eq!((denied.status(), denied.code()), (403, ResultCode::PermissionRequired));
    let internal = map_product_error(CanvasProductError::Internal("db password leaked".to_string()));
    assert_eq!((internal.status(), internal.code()), (500, ResultCode::InternalError));
    assert_eq!(internal.message, "An unexpected error occurred");
    assert_eq!(internal.framework_error().kind, WebFrameworkErrorKind::InternalServerError);
}

#[test]
fn trace_header_is_set_only_for_valid_header_values() {
    let value = trace_header_value("trace-0001").expect("plain trace ids are valid");
    assert_eq!(value.into_header_value().to_str().unwrap(), "trace-0001");
    let empty = trace_header_value("").expect("an empty id is a valid header value");
    assert_eq!(empty.into_header_value().as_bytes(), b"");
    assert!(trace_header_value("with\ttab").is_some());
    assert!(trace_header_value("caf\u{e9}").is_some());
    assert!(trace_header_value("line\nbreak").is_none());
    assert!(trace_header_value("del\u{7f}").is_none());
    assert!(trace_header_value("").is_some());
}
