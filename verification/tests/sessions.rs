use robdex_agent_runtime::submission::check_requirements_linkage;
use robdex_agent_runtime::submission::{check_session_linkage, require_linked_session, LinkedSession};
use robdex_agent_runtime::fields::{
    required_create_session_field, trimmed_text, validate_create_session, validate_session_settings_update,
    CreateSessionRequest, UpdateSessionSettingsRequest,
};
use robdex_agent_runtime::submission::{
    awaits_started_turn, check_message, check_settings_update_applied, observed_lifecycle, should_record_rejection,
    submission_status, SessionLifecycle, TURN_LOOKUP_ATTEMPTS,
};

fn full_create() -> CreateSessionRequest {
    CreateSessionRequest {
        role: Some(" runtime-no-rg ".to_string()),
        project: Some("error-api".to_string()),
        model: Some("gpt-5.4-mini".to_string()),
        workdir: Some("\t/tmp/work\n".to_string()),
        worktree_root: Some(".".to_string()),
        title: Some("Title".to_string()),
        name: Some("name".to_string()),
    }
}

#[test]
fn required_field_trims_and_rejects_blank() {
    assert_eq!(required_create_session_field(Some("  role-a  "), "role").unwrap(), "role-a");
    let missing = required_create_session_field(None, "role").unwrap_err();
    assert_eq!(missing.status, 400);
    assert_eq!(missing.code, "bad_request");
    assert_eq!(missing.message, "create session requires role");
    let blank = required_create_session_field(Some(" \t\u{3000}\n"), "worktreeRoot").unwrap_err();
    assert_eq!(blank.message, "create session requires worktreeRoot");
    assert_eq!(required_create_session_field(Some("\u{a0}x\u{2003}"), "title").unwrap(), "x");
}

#[test]
fn create_session_fields_are_checked_in_order() {
    let settings = validate_create_session(&full_create()).unwrap();
    assert_eq!(settings.role_id, "runtime-no-rg");
    assert_eq!(settings.project_intent, "error-api");
    assert_eq!(settings.workdir, "/tmp/work");
    assert_eq!(settings.worktree_root, ".");

    let mut request = full_create();
    request.model = None;
    request.name = Some("   ".to_string());
    let error = validate_create_session(&request).unwrap_err();
    assert_eq!(error.message, "create session requires model");

    let mut request = full_create();
    request.worktree_root = Some(String::new());
    request.role = None;
    assert_eq!(validate_create_session(&request).unwrap_err().message, "create session requires role");

    let mut request = full_create();
    request.name = None;
    assert_eq!(validate_create_session(&request).unwrap_err().message, "create session requires name");
}

#[test]
fn settings_update_checks_project_before_role() {
    let request = UpdateSessionSettingsRequest {
        project: " ".to_string(),
        role: "".to_string(),
        model: "m".to_string(),
        workdir: "w".to_string(),
        worktree_root: "r".to_string(),
        title: "t".to_string(),
        name: "n".to_string(),
        is_tracked: true,
    };
    assert_eq!(validate_session_settings_update(&request).unwrap_err().message, "create session requires project");
    let request = UpdateSessionSettingsRequest { project: " p ".to_string(), role: " r ".to_string(), ..request };
    let settings = validate_session_settings_update(&request).unwrap();
    assert_eq!((settings.project_intent.as_str(), settings.role_id.as_str()), ("p", "r"));
    assert_eq!(trimmed_text("  key \n"), "key");
}

#[test]
fn messages_must_not_be_blank() {
    assert!(check_message("hello").is_ok());
    let e = check_message(" \n\t ").unwrap_err();
    assert_eq!((e.status, e.message.as_str()), (400, "message must not be empty"));
}

#[test]
fn refused_submissions_record_the_observed_lifecycle() {
    assert_eq!(observed_lifecycle(None), "invalid");
    assert_eq!(observed_lifecycle(Some(SessionLifecycle { archived: true, status: "running".to_string() })), "archived");
    assert_eq!(observed_lifecycle(Some(SessionLifecycle { archived: false, status: "stopped".to_string() })), "stopped");
    assert!(!should_record_rejection("invalid"));
    assert!(should_record_rejection("archived"));
}

#[test]
fn idle_submissions_report_running() {
    assert!(awaits_started_turn("idle_turn_start"));
    assert!(!awaits_started_turn("active_turn_steering"));
    assert_eq!(submission_status("idle_turn_start", "accepted"), "running");
    assert_eq!(submission_status("queued_after_turn", "accepted"), "accepted");
    assert_eq!(TURN_LOOKUP_ATTEMPTS, 100);
}

#[test]
fn settings_update_must_touch_one_row() {
    assert!(check_settings_update_applied(1, 5).is_ok());
    let e = check_settings_update_applied(0, 1).unwrap_err();
    assert_eq!(e.status, 404);
    assert_eq!(e.message, "session not found: 00000000-0000-0000-0000-000000000001");
}

#[test]
fn helper_sessions_must_be_linked_to_their_source() {
    let linked = LinkedSession { parent_session_id: Some(1), session_kind: "helper".to_string(), hidden: true };
    assert!(check_session_linkage(&linked, 1, "helper", "linkage is invalid").is_ok());
    for bad in [
        LinkedSession { parent_session_id: Some(2), ..linked.clone() },
        LinkedSession { parent_session_id: None, ..linked.clone() },
        LinkedSession { session_kind: "other".to_string(), ..linked.clone() },
        LinkedSession { hidden: false, ..linked.clone() },
    ] {
        let e = check_session_linkage(&bad, 1, "helper", "linkage is invalid").unwrap_err();
        assert_eq!((e.status, e.code.as_str(), e.message.as_str()), (409, "conflict", "linkage is invalid"));
    }
    assert_eq!(require_linked_session(Some(4), "none").unwrap(), 4);
    assert_eq!(require_linked_session(None, "no active helper").unwrap_err().message, "no active helper");
}

#[test]
fn requirements_helper_must_be_the_hidden_child() {
    let linked = LinkedSession { parent_session_id: Some(1), session_kind: "requirementsReviewer".to_string(), hidden: true };
    assert!(check_requirements_linkage(&linked, 1, "refused").is_ok());
    let other = LinkedSession { session_kind: "helper".to_string(), ..linked.clone() };
    let e = check_requirements_linkage(&other, 1, "refused").unwrap_err();
    assert_eq!((e.status, e.message.as_str()), (409, "refused"));
    assert!(check_requirements_linkage(&linked, 2, "refused").is_err());
}
