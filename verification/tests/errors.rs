use robdex_agent_runtime::errors::{ApiError, DomainError, ErrorDetails, ErrorKind};
use robdex_agent_runtime::failures::{
    api_error_from_report, is_row_not_found, is_unavailable_dependency_error, map_missing_entity, parse_json,
    DatabaseFailure, FailureCause, FailureReport,
};

fn untyped(message: &str) -> FailureReport {
    FailureReport { domain: None, causes: vec![FailureCause::Other], text: message.to_string() }
}

#[test]
fn untyped_anyhow_messages_do_not_drive_api_error_status() {
    for message in [
        "workflow memory is not visible to session: 00000000-0000-0000-0000-000000000000",
        "role not found: runtime-x",
        "session submit worker internal invariant violation",
        "unsupported command registry operation: explode",
        "database provider model embedding connection failed",
    ] {
        let api_error = api_error_from_report(untyped(message));
        assert_eq!(api_error.status, 500, "untyped message was classified: {message}");
        assert_eq!(api_error.code, "internal_error");
        assert_eq!(api_error.message, "unexpected server error");
    }
    let typed = api_error_from_report(FailureReport {
        domain: Some(DomainError::forbidden(
            "workflow memory is not visible to session: memory-1".to_string(),
            ErrorDetails::Entity { entity: "workflow_memory".to_string(), id: "memory-1".to_string() },
        )),
        causes: vec![FailureCause::Other],
        text: "workflow memory is not visible to session: memory-1".to_string(),
    });
    assert_eq!(typed.status, 403);
    assert_eq!(typed.code, "forbidden");
}

#[test]
fn every_kind_has_its_code_and_status() {
    let table = [
        (ErrorKind::BadRequest, "bad_request", 400),
        (ErrorKind::NotFound, "not_found", 404),
        (ErrorKind::Forbidden, "forbidden", 403),
        (ErrorKind::Conflict, "conflict", 409),
        (ErrorKind::ValidationFailed, "validation_failed", 422),
        (ErrorKind::Unavailable, "unavailable", 503),
        (ErrorKind::Internal, "internal_error", 500),
    ];
    for (kind, code, status) in table {
        assert_eq!(kind.code(), code);
        assert_eq!(kind.status(), status);
        let answered = ApiError::from_domain(DomainError::with_message(kind, "why".to_string()));
        assert_eq!(answered.code, code);
        assert_eq!(answered.status, status);
        assert_eq!(answered.message, "why");
    }
}

#[test]
fn typed_provider_connection_errors_map_to_unavailable() {
    let report = FailureReport {
        domain: None,
        causes: vec![FailureCause::Other, FailureCause::HttpClient],
        text: "error sending request".to_string(),
    };
    let api_error = api_error_from_report(report);
    assert_eq!(api_error.status, 503);
    assert_eq!(api_error.code, "unavailable");
    assert_eq!(api_error.message, "runtime dependency unavailable");
}

#[test]
fn closed_pool_maps_to_unavailable() {
    for failure in [
        DatabaseFailure::PoolClosed,
        DatabaseFailure::PoolTimedOut,
        DatabaseFailure::Io,
        DatabaseFailure::Tls,
        DatabaseFailure::Configuration,
    ] {
        assert!(is_unavailable_dependency_error(&FailureCause::Database(failure)));
        let report = FailureReport { domain: None, causes: vec![FailureCause::Database(failure)], text: "db".to_string() };
        assert_eq!(api_error_from_report(report).code, "unavailable");
    }
    assert!(!is_unavailable_dependency_error(&FailureCause::Database(DatabaseFailure::RowNotFound)));
    assert!(!is_unavailable_dependency_error(&FailureCause::Database(DatabaseFailure::Other)));
    assert!(!is_unavailable_dependency_error(&FailureCause::Other));
}

#[test]
fn domain_error_wins_over_outage() {
    let report = FailureReport {
        domain: Some(DomainError::conflict("already decided".to_string())),
        causes: vec![FailureCause::Database(DatabaseFailure::PoolClosed)],
        text: "already decided".to_string(),
    };
    let api_error = api_error_from_report(report);
    assert_eq!(api_error.status, 409);
    assert_eq!(api_error.code, "conflict");
    assert_eq!(api_error.message, "already decided");
}

#[test]
fn missing_rows_become_not_found_with_entity_details() {
    let report = FailureReport {
        domain: None,
        causes: vec![FailureCause::Other, FailureCause::Database(DatabaseFailure::RowNotFound)],
        text: "no rows returned".to_string(),
    };
    assert!(is_row_not_found(&report));
    let api_error = map_missing_entity(report, "session", "00000000-0000-0000-0000-000000000001");
    assert_eq!(api_error.status, 404);
    assert_eq!(api_error.code, "not_found");
    assert_eq!(api_error.message, "session not found: 00000000-0000-0000-0000-000000000001");
    match api_error.details {
        ErrorDetails::Entity { entity, id } => {
            assert_eq!(entity, "session");
            assert_eq!(id, "00000000-0000-0000-0000-000000000001");
        }
        other => panic!("not-found errors carry the entity: {other:?}"),
    }
    let other = map_missing_entity(untyped("boom"), "session", "x");
    assert_eq!(other.status, 500);
}

#[test]
fn unreadable_bodies_are_bad_requests() {
    let ok: Result<u8, ApiError> = parse_json(Ok(7u8));
    assert_eq!(ok.unwrap(), 7);
    let bad = parse_json::<u8>(Err("Failed to parse the request body as JSON".to_string())).unwrap_err();
    assert_eq!(bad.status, 400);
    assert_eq!(bad.code, "bad_request");
    assert_eq!(bad.message, "Failed to parse the request body as JSON");
}

#[test]
fn constructors_keep_their_messages() {
    let e = ApiError::not_found("role", "runtime-x");
    assert_eq!(e.message, "role not found: runtime-x");
    assert_eq!(e.status, 404);
    let e = ApiError::validation_failed("bad draft".to_string());
    assert_eq!((e.status, e.code.as_str(), e.message.as_str()), (422, "validation_failed", "bad draft"));
    let e = ApiError::unavailable("down".to_string());
    assert_eq!((e.status, e.code.as_str()), (503, "unavailable"));
    let e = ApiError::bad_request("nope".to_string());
    assert_eq!((e.status, e.code.as_str()), (400, "bad_request"));
    let internal = DomainError::internal_safe();
    assert_eq!(internal.kind, ErrorKind::Internal);
    assert_eq!(internal.message, "unexpected server error");
}

#[test]
fn arbitrary_json_details_are_carried_through() {
    let mut map = serde_json::Map::new();
    map.insert("entity".to_string(), serde_json::Value::String("workflow_memory".to_string()));
    map.insert("extra".to_string(), serde_json::Value::Array(vec![serde_json::Value::from(1), serde_json::Value::from(2)]));
    let details = serde_json::Value::Object(map);
    let answered = ApiError::from_domain(DomainError::forbidden("hidden".to_string(), ErrorDetails::Json(details.clone())));
    assert_eq!(answered.status, 403);
    match answered.details {
        ErrorDetails::Json(value) => assert_eq!(value, details),
        other => panic!("{other:?}"),
    }
}
