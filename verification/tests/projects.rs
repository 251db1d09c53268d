use robdex_agent_runtime::projects::is_unassigned_project_intent;
use robdex_agent_runtime::projects::{
    display_name_for_project_key, normalize_new_project, normalize_project_update, plan_project_from_intent,
    CreateProjectRequest, ProjectIntentPlan, ProjectSettingsRequest, ProjectSummary,
};

fn summary(key: &str, archived: bool) -> ProjectSummary {
    ProjectSummary { project_key: key.to_string(), archived }
}

#[test]
fn display_names_capitalise_words() {
    assert_eq!(display_name_for_project_key("tool-filter"), "Tool Filter");
    assert_eq!(display_name_for_project_key("error_api-v2"), "Error Api V2");
    assert_eq!(display_name_for_project_key("--a__b-"), "A B");
    assert_eq!(display_name_for_project_key(""), "");
    assert_eq!(display_name_for_project_key("-_-"), "");
    assert_eq!(display_name_for_project_key("ßig-émile"), "SSig Émile");
    assert_eq!(display_name_for_project_key("x"), "X");
}

#[test]
fn unassigned_intents_name_no_project() {
    assert!(matches!(plan_project_from_intent("__unassigned__", &vec![]), ProjectIntentPlan::Unassigned));
    assert!(matches!(plan_project_from_intent("unassigned", &vec![summary("unassigned", false)]), ProjectIntentPlan::Unassigned));
}

#[test]
fn active_projects_are_reused() {
    let projects = vec![summary("other", false), summary("error-api", false)];
    match plan_project_from_intent("error-api", &projects) {
        ProjectIntentPlan::UseExisting(key) => assert_eq!(key, "error-api"),
        other => panic!("expected reuse, got {other:?}"),
    }
}

#[test]
fn missing_or_archived_projects_are_created() {
    for projects in [vec![], vec![summary("project-progenitor", true), summary("project-progenitor", false)]] {
        match plan_project_from_intent("project-progenitor", &projects) {
            ProjectIntentPlan::CreateThenUse(p) => {
                assert_eq!(p.project_key, "project-progenitor");
                assert_eq!(p.display_name, "Project Progenitor");
                assert_eq!(p.default_workdir, ".");
                assert_eq!(p.default_worktree_root, ".");
                assert_eq!(p.default_role_id, None);
                assert_eq!(p.default_model, "gpt-5.4-mini");
            }
            other => panic!("expected creation, got {other:?}"),
        }
    }
}

#[test]
fn project_requests_are_trimmed() {
    let created = normalize_new_project(&CreateProjectRequest {
        project_key: " key ".to_string(),
        display_name: " Name ".to_string(),
        default_workdir: " . ".to_string(),
        default_worktree_root: "\t/wt".to_string(),
        default_role_id: Some(" role ".to_string()),
        default_model: "model\n".to_string(),
    });
    assert_eq!(created.project_key, "key");
    assert_eq!(created.display_name, "Name");
    assert_eq!(created.default_workdir, ".");
    assert_eq!(created.default_worktree_root, "/wt");
    assert_eq!(created.default_role_id.as_deref(), Some(" role "));
    assert_eq!(created.default_model, "model");
    let updated = normalize_project_update(
        " key ",
        &ProjectSettingsRequest {
            display_name: "N ".to_string(),
            default_workdir: "w".to_string(),
            default_worktree_root: "r".to_string(),
            default_role_id: None,
            default_model: " m".to_string(),
        },
    );
    assert_eq!((updated.project_key.as_str(), updated.display_name.as_str(), updated.default_model.as_str()), ("key", "N", "m"));
}

#[test]
fn unassigned_intents_need_no_project_list() {
    assert!(is_unassigned_project_intent("__unassigned__"));
    assert!(is_unassigned_project_intent("unassigned"));
    assert!(!is_unassigned_project_intent("Unassigned"));
    assert!(!is_unassigned_project_intent("error-api"));
}
