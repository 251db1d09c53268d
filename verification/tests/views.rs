use robdex_agent_runtime::snapshot::{model_options_error, selected_project};
use robdex_agent_runtime::snapshot::{pending_actions, PendingAction, PendingKind};
use robdex_agent_runtime::health::{default_runtime_identity, healthy, unhealthy};
use robdex_agent_runtime::projects::ProjectSummary;
use robdex_agent_runtime::registry::{registry_lookup, require_decision_session, require_workflow_memory, RegistryLookup};
use robdex_agent_runtime::roles::{
    check_draft_matches_route, check_role_exists, check_role_has_history, check_role_is_new, check_version_belongs_to_role,
    complete_role_validation, unarchive_role_failure,
};
use robdex_agent_runtime::failures::{DatabaseFailure, FailureCause, FailureReport};
use robdex_agent_runtime::snapshot::{
    displayed_session_status, modal_surface_summaries, pending_approval_positions, project_options, ProjectOption,
    ProjectOptionKind, SurfaceCounts, INITIAL_HYDRATE_ENTRY_CAP,
};

fn summary(key: &str, archived: bool) -> ProjectSummary {
    ProjectSummary { project_key: key.to_string(), archived }
}

#[test]
fn project_picker_lists_active_projects() {
    let projects = vec![summary("a", false), summary("b", true), summary("c", false)];
    let none = project_options(None, &projects);
    assert_eq!(
        none,
        vec![
            ProjectOption { kind: ProjectOptionKind::All, selected: true },
            ProjectOption { kind: ProjectOptionKind::Unassigned, selected: false },
            ProjectOption { kind: ProjectOptionKind::Project(0), selected: false },
            ProjectOption { kind: ProjectOptionKind::Project(2), selected: false },
        ]
    );
    let chosen = project_options(Some("c"), &projects);
    assert!(!chosen[0].selected);
    assert!(chosen[3].selected);
    let unassigned = project_options(Some("__unassigned__"), &projects);
    assert!(unassigned[1].selected);
    assert!(!unassigned[2].selected && !unassigned[3].selected);
}

#[test]
fn stopped_sessions_show_as_idle() {
    assert_eq!(displayed_session_status("stopped"), "Idle");
    assert_eq!(displayed_session_status("running"), "running");
}

#[test]
fn surface_summaries_are_in_order() {
    let s = modal_surface_summaries(SurfaceCounts {
        selected_sessions: 1,
        compaction_checkpoints: 2,
        managed_processes: 3,
        roles: 4,
        workflow_memories: 5,
        pending_approvals: 6,
        command_registry: 7,
    });
    let ids: Vec<&str> = s.iter().map(|x| x.surface_id.as_str()).collect();
    assert_eq!(ids, ["session", "compaction", "processManager", "roleAdmin", "workflowMemory", "approvals", "commandRegistry"]);
    let rows: Vec<(u64, u64)> = s.iter().map(|x| (x.row_count, x.action_count)).collect();
    assert_eq!(rows, [(1, 3), (2, 1), (3, 4), (4, 6), (5, 3), (6, 2), (7, 3)]);
    assert_eq!(s[2].title, "Process Manager");
    assert_eq!(INITIAL_HYDRATE_ENTRY_CAP, 50);
}

#[test]
fn only_pending_approvals_are_listed() {
    let statuses = vec![
        Some("pending".to_string()),
        Some("approved".to_string()),
        None,
        Some("pending".to_string()),
        Some("Pending".to_string()),
    ];
    assert_eq!(pending_approval_positions(&statuses), vec![0, 3]);
}

#[test]
fn role_checks_name_the_roles() {
    assert!(check_draft_matches_route("runtime-x", "runtime-x").is_ok());
    let e = check_draft_matches_route("runtime-y", "runtime-x").unwrap_err();
    assert_eq!((e.status, e.code.as_str()), (422, "validation_failed"));
    assert_eq!(e.message, "role draft id runtime-y does not match route role id runtime-x");
    let e = check_version_belongs_to_role(0x10, "owner", "runtime-x").unwrap_err();
    assert_eq!(e.message, "role version 00000000-0000-0000-0000-000000000010 belongs to owner, not runtime-x");
    assert!(check_version_belongs_to_role(0x10, "runtime-x", "runtime-x").is_ok());
    let e = check_role_is_new(true, "runtime-x").unwrap_err();
    assert_eq!((e.status, e.message.as_str()), (409, "role already exists: runtime-x"));
    assert!(check_role_is_new(false, "runtime-x").is_ok());
    assert_eq!(check_role_exists(false, "runtime-x").unwrap_err().message, "role not found: runtime-x");
    assert!(check_role_has_history(false, true, "r").is_ok());
    assert!(check_role_has_history(true, false, "r").is_ok());
    assert_eq!(check_role_has_history(false, false, "r").unwrap_err().status, 404);
}

#[test]
fn unarchive_failures_are_conflicts_unless_missing() {
    let missing = FailureReport {
        domain: None,
        causes: vec![FailureCause::Database(DatabaseFailure::RowNotFound)],
        text: "no rows".to_string(),
    };
    assert_eq!(unarchive_role_failure(missing, "r").status, 404);
    let other = FailureReport { domain: None, causes: vec![FailureCause::Other], text: "role is active".to_string() };
    let e = unarchive_role_failure(other, "r");
    assert_eq!((e.status, e.message.as_str()), (409, "role is active"));
}

#[test]
fn role_validation_collects_errors() {
    let v = complete_role_validation(vec![], vec![]);
    assert!(v.valid);
    let v = complete_role_validation(vec!["a".to_string()], vec!["b".to_string()]);
    assert!(!v.valid);
    assert_eq!(v.errors, vec!["a".to_string(), "b".to_string()]);
}

#[test]
fn registry_queries_prefer_the_session() {
    assert!(matches!(registry_lookup(Some(4), Some("p".to_string())), RegistryLookup::VisibleForSession(4)));
    match registry_lookup(None, Some("p".to_string())) {
        RegistryLookup::VisibleForProject(p) => assert_eq!(p, "p"),
        other => panic!("{other:?}"),
    }
    assert!(matches!(registry_lookup(None, None), RegistryLookup::AllCommands));
    assert_eq!(require_decision_session(Some(3)).unwrap(), 3);
    let e = require_decision_session(None).unwrap_err();
    assert_eq!((e.status, e.message.as_str()), (400, "sessionId is required"));
    assert!(require_workflow_memory(true, 1).is_ok());
    let e = require_workflow_memory(false, 1).unwrap_err();
    assert_eq!(e.message, "workflow_memory not found: 00000000-0000-0000-0000-000000000001");
}

#[test]
fn health_reports_identity() {
    let h = healthy("robdex-agent-runtime/0.1.0".to_string());
    assert_eq!((h.status.as_str(), h.database.as_str(), h.runtime_identity.as_str()), ("ok", "connected", "robdex-agent-runtime/0.1.0"));
    let e = unhealthy("pool timed out".to_string());
    assert_eq!((e.status, e.code.as_str(), e.message.as_str()), (503, "unavailable", "pool timed out"));
    assert_eq!(default_runtime_identity("1.2.3"), "robdex-agent-runtime/1.2.3");
}

#[test]
fn pending_actions_list_approvals_first() {
    assert_eq!(
        pending_actions(2, 1),
        vec![
            PendingAction { kind: PendingKind::Approval, position: 0 },
            PendingAction { kind: PendingKind::Approval, position: 1 },
            PendingAction { kind: PendingKind::CommandRegistry, position: 0 },
        ]
    );
    assert!(pending_actions(0, 0).is_empty());
}

#[test]
fn selected_project_and_model_option_errors() {
    assert_eq!(selected_project(Some(Some("p".to_string()))), Some("p".to_string()));
    assert_eq!(selected_project(Some(None)), None);
    assert_eq!(selected_project(None), None);
    assert_eq!(model_options_error("codex not found"), "Model options unavailable: codex not found");
}
