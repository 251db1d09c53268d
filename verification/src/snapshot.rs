use vstd::prelude::*;
use crate::projects::ProjectSummary;
use crate::text::same_text;

verus! {

/// What a project option of the session-creation form stands for.
#[derive(Clone, Copy, Debug, PartialEq, Eq, Structural)]
pub enum ProjectOptionKind {
    /// Every project.
    All,
    /// Sessions without a project.
    Unassigned,
    /// The project at this position of the projection's project list.
    Project(usize),
}

/// An entry of the project picker.
#[derive(Clone, Copy, Debug, PartialEq, Eq, Structural)]
pub struct ProjectOption {
    pub kind: ProjectOptionKind,
    pub selected: bool,
}

/// The view of an optional string slice.
pub open spec fn opt_text(s: Option<&str>) -> Option<Seq<char>> {
    match s {
        Some(t) => Some(t@),
        None => None,
    }
}

/// The options for the active projects among the first `n`, in order; each is
/// selected when its key is the selected project.
pub open spec fn listed_projects(selected: Option<Seq<char>>, projects: Seq<ProjectSummary>, n: int) -> Seq<ProjectOption>
    decreases n,
{
    if n <= 0 {
        Seq::<ProjectOption>::empty()
    } else {
        let earlier = listed_projects(selected, projects, n - 1);
        let p = projects[n - 1];
        if p.archived {
            earlier
        } else {
            earlier.push(ProjectOption {
                kind: ProjectOptionKind::Project((n - 1) as usize),
                selected: selected == Some(p.project_key@),
            })
        }
    }
}

/// The project picker: "All" (selected when no project is), "Unassigned"
/// (selected when the selected project is `__unassigned__`), then every
/// project that is not archived.
pub open spec fn project_options_spec(selected: Option<Seq<char>>, projects: Seq<ProjectSummary>) -> Seq<ProjectOption> {
    seq![
        ProjectOption { kind: ProjectOptionKind::All, selected: selected is None },
        ProjectOption { kind: ProjectOptionKind::Unassigned, selected: selected == Some("__unassigned__"@) },
    ] + listed_projects(selected, projects, projects.len() as int)
}

/// See [`project_options_spec`].
pub fn project_options(selected: Option<&str>, projects: &Vec<ProjectSummary>) -> (options: Vec<ProjectOption>)
    ensures
        options@ == project_options_spec(opt_text(selected), projects@),
        options@.len() >= 2,
        options@[0] == (ProjectOption { kind: ProjectOptionKind::All, selected: selected is None }),
        options@[1] == (ProjectOption { kind: ProjectOptionKind::Unassigned, selected: opt_text(selected) == Some("__unassigned__"@) }),
        forall|k: int| 2 <= k < options@.len() ==> ((#[trigger] options@[k]).kind matches ProjectOptionKind::Project(j)
            && j < projects@.len() && !projects@[j as int].archived
            && options@[k].selected == (opt_text(selected) == Some(projects@[j as int].project_key@))),
        forall|j: usize| j < projects@.len() && !projects@[j as int].archived ==> exists|k: int|
            2 <= k < options@.len() && (#[trigger] options@[k]).kind == ProjectOptionKind::Project(j),
{
    let count = projects.len();
    let unassigned_selected = match selected {
        Some(s) => same_text(s, "__unassigned__"),
        None => false,
    };
    let mut options: Vec<ProjectOption> = Vec::new();
    options.push(ProjectOption { kind: ProjectOptionKind::All, selected: selected.is_none() });
    options.push(ProjectOption { kind: ProjectOptionKind::Unassigned, selected: unassigned_selected });
    let ghost head = options@;
    let mut j: usize = 0;
    while j < projects.len()
        invariant
            j <= projects.len(),
            head == seq![
                ProjectOption { kind: ProjectOptionKind::All, selected: selected is None },
                ProjectOption { kind: ProjectOptionKind::Unassigned, selected: opt_text(selected) == Some("__unassigned__"@) },
            ],
            options@ == head + listed_projects(opt_text(selected), projects@, j as int),
        decreases projects.len() - j,
    {
        if !projects[j].archived {
            let chosen = match selected {
                Some(s) => same_text(s, projects[j].project_key.as_str()),
                None => false,
            };
            options.push(ProjectOption { kind: ProjectOptionKind::Project(j), selected: chosen });
            proof {
                assert(options@ =~= head + listed_projects(opt_text(selected), projects@, j + 1));
            }
        }
        j = j + 1;
    }
    proof {
        let sel = opt_text(selected);
        law_project_options_mark_the_selected_project(sel, projects@, count as int);
        let listed = listed_projects(sel, projects@, count as int);
        assert(options@ == head + listed);
        assert forall|k: int| 2 <= k < options@.len() implies ((#[trigger] options@[k]).kind matches ProjectOptionKind::Project(j)
            && j < projects@.len() && !projects@[j as int].archived
            && options@[k].selected == (sel == Some(projects@[j as int].project_key@))) by {
            assert(options@[k] == listed[k - 2]);
        }
        assert forall|j: usize| j < projects@.len() && !projects@[j as int].archived implies exists|k: int|
            2 <= k < options@.len() && (#[trigger] options@[k]).kind == ProjectOptionKind::Project(j) by {
            let m = choose|m: int| 0 <= m < listed.len() && (#[trigger] listed[m]).kind == ProjectOptionKind::Project(j);
            assert(options@[m + 2] == listed[m]);
        }
    }
    options
}

/// The selected project: that of the selected session, if a session is
/// selected and it belongs to a project.
pub fn selected_project(selected_session_project: Option<Option<String>>) -> (p: Option<String>)
    ensures
        match selected_session_project {
            Some(Some(k)) => p matches Some(q) && q@ == k@,
            _ => p is None,
        },
{
    match selected_session_project {
        Some(Some(k)) => Some(k),
        _ => None,
    }
}

/// The text reported when the model options could not be read.
pub fn model_options_error(failure_text: &str) -> (message: String)
    ensures
        message@ == "Model options unavailable: "@ + failure_text@,
{
    String::from_str("Model options unavailable: ").concat(failure_text)
}

/// The project options list, in order, every project that is not archived and
/// no other, and each is selected exactly when the selected project is its key;
/// so when keys are distinct at most one project option is selected.
pub proof fn law_project_options_mark_the_selected_project(selected: Option<Seq<char>>, projects: Seq<ProjectSummary>, n: int)
    requires
        0 <= n <= projects.len(),
        projects.len() <= usize::MAX,
    ensures
        forall|k: int| 0 <= k < listed_projects(selected, projects, n).len() ==>
            ((#[trigger] listed_projects(selected, projects, n)[k]).kind matches ProjectOptionKind::Project(j)
            && j < n && !projects[j as int].archived
            && listed_projects(selected, projects, n)[k].selected == (selected == Some(projects[j as int].project_key@))),
        forall|j: usize| j < n && !projects[j as int].archived ==> exists|k: int|
            0 <= k < listed_projects(selected, projects, n).len()
                && (#[trigger] listed_projects(selected, projects, n)[k]).kind == ProjectOptionKind::Project(j),
        forall|a: int, b: int| 0 <= a < b < listed_projects(selected, projects, n).len() ==>
            (#[trigger] listed_projects(selected, projects, n)[a]).kind->Project_0
                < (#[trigger] listed_projects(selected, projects, n)[b]).kind->Project_0,
    decreases n,
{
    if n > 0 {
        law_project_options_mark_the_selected_project(selected, projects, n - 1);
        let earlier = listed_projects(selected, projects, n - 1);
        let now = listed_projects(selected, projects, n);
        if !projects[n - 1].archived {
            let added = ProjectOption {
                kind: ProjectOptionKind::Project((n - 1) as usize),
                selected: selected == Some(projects[n - 1].project_key@),
            };
            assert(now == earlier.push(added));
            assert forall|k: int| 0 <= k < now.len() implies
                ((#[trigger] now[k]).kind matches ProjectOptionKind::Project(j) && j < n && !projects[j as int].archived
                    && now[k].selected == (selected == Some(projects[j as int].project_key@))) by {
                if k < earlier.len() {
                    assert(now[k] == earlier[k]);
                }
            }
            assert forall|j: usize| j < n && !projects[j as int].archived implies exists|k: int|
                0 <= k < now.len() && (#[trigger] now[k]).kind == ProjectOptionKind::Project(j) by {
                if j < n - 1 {
                    let k = choose|k: int| 0 <= k < earlier.len() && (#[trigger] earlier[k]).kind == ProjectOptionKind::Project(j);
                    assert(now[k] == earlier[k]);
                } else {
                    assert(now[now.len() - 1].kind == ProjectOptionKind::Project(j));
                }
            }
            assert forall|a: int, b: int| 0 <= a < b < now.len() implies
                (#[trigger] now[a]).kind->Project_0 < (#[trigger] now[b]).kind->Project_0 by {
                assert(now[a] == earlier[a]);
                if b < earlier.len() {
                    assert(now[b] == earlier[b]);
                }
            }
        } else {
            assert(now == earlier);
            assert forall|j: usize| j < n && !projects[j as int].archived implies exists|k: int|
                0 <= k < now.len() && (#[trigger] now[k]).kind == ProjectOptionKind::Project(j) by {
                let k = choose|k: int| 0 <= k < earlier.len() && (#[trigger] earlier[k]).kind == ProjectOptionKind::Project(j);
            }
        }
    }
}

/// With distinct project keys, at most one project option is selected.
pub proof fn law_at_most_one_project_selected(selected: Option<Seq<char>>, projects: Seq<ProjectSummary>)
    requires
        projects.len() <= usize::MAX,
        forall|a: int, b: int| 0 <= a < b < projects.len() ==> #[trigger] projects[a].project_key@ != #[trigger] projects[b].project_key@,
    ensures
        forall|a: int, b: int| 0 <= a < b < listed_projects(selected, projects, projects.len() as int).len()
            && (#[trigger] listed_projects(selected, projects, projects.len() as int)[a]).selected
            ==> !(#[trigger] listed_projects(selected, projects, projects.len() as int)[b]).selected,
{
    let n = projects.len() as int;
    law_project_options_mark_the_selected_project(selected, projects, n);
    let l = listed_projects(selected, projects, n);
    assert forall|a: int, b: int| 0 <= a < b < l.len() && (#[trigger] l[a]).selected implies !(#[trigger] l[b]).selected by {
        let ja = l[a].kind->Project_0;
        let jb = l[b].kind->Project_0;
        assert(ja < jb);
        assert(projects[ja as int].project_key@ != projects[jb as int].project_key@);
    }
}

/// The status shown for the selected session: a stopped session shows as idle.
pub fn displayed_session_status(status: &str) -> (shown: String)
    ensures
        shown@ == if status@ == "stopped"@ { "Idle"@ } else { status@ },
{
    if same_text(status, "stopped") {
        String::from_str("Idle")
    } else {
        String::from_str(status)
    }
}

/// The sizes that the summaries of the modal surfaces report.
#[derive(Clone, Copy, Debug)]
pub struct SurfaceCounts {
    pub selected_sessions: u64,
    pub compaction_checkpoints: u64,
    pub managed_processes: u64,
    pub roles: u64,
    pub workflow_memories: u64,
    pub pending_approvals: u64,
    pub command_registry: u64,
}

/// The summary of one modal surface.
#[derive(Debug)]
pub struct SurfaceSummary {
    pub surface_id: String,
    pub title: String,
    pub row_count: u64,
    pub action_count: u64,
}

/// The identity, title, row count and action count of a surface summary.
pub open spec fn summary_is(s: SurfaceSummary, id: Seq<char>, title: Seq<char>, rows: u64, actions: u64) -> bool {
    s.surface_id@ == id && s.title@ == title && s.row_count == rows && s.action_count == actions
}

fn summary(id: &str, title: &str, rows: u64, actions: u64) -> (s: SurfaceSummary)
    ensures
        summary_is(s, id@, title@, rows, actions),
{
    SurfaceSummary { surface_id: String::from_str(id), title: String::from_str(title), row_count: rows, action_count: actions }
}

/// The summaries of the modal surfaces, in the order in which they are shown.
pub fn modal_surface_summaries(c: SurfaceCounts) -> (s: Vec<SurfaceSummary>)
    ensures
        s@.len() == 7,
        summary_is(s@[0], "session"@, "Session"@, c.selected_sessions, 3),
        summary_is(s@[1], "compaction"@, "Compaction"@, c.compaction_checkpoints, 1),
        summary_is(s@[2], "processManager"@, "Process Manager"@, c.managed_processes, 4),
        summary_is(s@[3], "roleAdmin"@, "Role Admin"@, c.roles, 6),
        summary_is(s@[4], "workflowMemory"@, "Workflow Memory"@, c.workflow_memories, 3),
        summary_is(s@[5], "approvals"@, "Approvals"@, c.pending_approvals, 2),
        summary_is(s@[6], "commandRegistry"@, "Command Registry"@, c.command_registry, 3),
{
    let mut s: Vec<SurfaceSummary> = Vec::new();
    s.push(summary("session", "Session", c.selected_sessions, 3));
    s.push(summary("compaction", "Compaction", c.compaction_checkpoints, 1));
    s.push(summary("processManager", "Process Manager", c.managed_processes, 4));
    s.push(summary("roleAdmin", "Role Admin", c.roles, 6));
    s.push(summary("workflowMemory", "Workflow Memory", c.workflow_memories, 3));
    s.push(summary("approvals", "Approvals", c.pending_approvals, 2));
    s.push(summary("commandRegistry", "Command Registry", c.command_registry, 3));
    s
}

/// The number of chat entries that a client hydrates at first.
pub const INITIAL_HYDRATE_ENTRY_CAP: u64 = 50;

/// The positions, in order, of the approvals whose status is `pending`.
pub open spec fn pending_positions(statuses: Seq<Option<String>>, n: int) -> Seq<usize>
    decreases n,
{
    if n <= 0 {
        Seq::<usize>::empty()
    } else {
        let earlier = pending_positions(statuses, n - 1);
        if statuses[n - 1] matches Some(s) && s@ == "pending"@ {
            earlier.push((n - 1) as usize)
        } else {
            earlier
        }
    }
}

/// The approvals listed are exactly those whose status is `pending`, each
/// once, in the order of the list.
pub proof fn law_pending_positions_are_the_pending_ones(statuses: Seq<Option<String>>, n: int)
    requires
        0 <= n <= statuses.len(),
        statuses.len() <= usize::MAX,
    ensures
        forall|j: usize| j < n ==>
            (#[trigger] pending_positions(statuses, n).contains(j) <==> (statuses[j as int] matches Some(s) && s@ == "pending"@)),
        forall|j: usize| #[trigger] pending_positions(statuses, n).contains(j) ==> j < n,
        forall|k: int| 0 <= k < pending_positions(statuses, n).len() ==> #[trigger] pending_positions(statuses, n)[k] < n,
        forall|a: int, b: int| 0 <= a < b < pending_positions(statuses, n).len() ==>
            #[trigger] pending_positions(statuses, n)[a] < #[trigger] pending_positions(statuses, n)[b],
    decreases n,
{
    if n > 0 {
        law_pending_positions_are_the_pending_ones(statuses, n - 1);
        let earlier = pending_positions(statuses, n - 1);
        let now = pending_positions(statuses, n);
        let last = (n - 1) as usize;
        if statuses[n - 1] matches Some(s) && s@ == "pending"@ {
            assert(now == earlier.push(last));
            assert forall|j: usize| #[trigger] now.contains(j) <==> (earlier.contains(j) || j == last) by {
                if now.contains(j) {
                    let k = choose|k: int| 0 <= k < now.len() && now[k] == j;
                    if k < earlier.len() {
                        assert(earlier[k] == j);
                    }
                }
                if earlier.contains(j) {
                    let k = choose|k: int| 0 <= k < earlier.len() && earlier[k] == j;
                    assert(now[k] == j);
                }
                if j == last {
                    assert(now[now.len() - 1] == j);
                }
            }
            assert forall|a: int, b: int| 0 <= a < b < now.len() implies #[trigger] now[a] < #[trigger] now[b] by {
                if b < earlier.len() {
                    assert(now[a] == earlier[a] && now[b] == earlier[b]);
                } else {
                    assert(now[a] == earlier[a]);
                    assert(earlier[a] < n - 1);
                }
            }
            assert forall|k: int| 0 <= k < now.len() implies #[trigger] now[k] < n by {
                if k < earlier.len() {
                    assert(now[k] == earlier[k]);
                }
            }
            assert forall|j: usize| j < n implies
                (#[trigger] now.contains(j) <==> (statuses[j as int] matches Some(s) && s@ == "pending"@)) by {
                if j < n - 1 {
                    assert(earlier.contains(j) <==> (statuses[j as int] matches Some(s) && s@ == "pending"@));
                }
            }
        } else {
            assert(now == earlier);
            assert forall|j: usize| j < n implies
                (#[trigger] now.contains(j) <==> (statuses[j as int] matches Some(s) && s@ == "pending"@)) by {
                if j < n - 1 {
                    assert(earlier.contains(j) <==> (statuses[j as int] matches Some(s) && s@ == "pending"@));
                } else if earlier.contains(j) {
                    assert(j < n - 1);
                }
            }
        }
    }
}

/// Which approvals a listing shows: those with the status `pending`, in order.
pub fn pending_approval_positions(statuses: &Vec<Option<String>>) -> (kept: Vec<usize>)
    ensures
        kept@ == pending_positions(statuses@, statuses@.len() as int),
        forall|j: usize| j < statuses@.len() ==>
            (#[trigger] kept@.contains(j) <==> (statuses@[j as int] matches Some(s) && s@ == "pending"@)),
        forall|k: int| 0 <= k < kept@.len() ==> #[trigger] kept@[k] < statuses@.len(),
        forall|a: int, b: int| 0 <= a < b < kept@.len() ==> #[trigger] kept@[a] < #[trigger] kept@[b],
{
    let count = statuses.len();
    proof {
        law_pending_positions_are_the_pending_ones(statuses@, count as int);
    }
    let mut kept: Vec<usize> = Vec::new();
    let mut j: usize = 0;
    while j < statuses.len()
        invariant
            j <= statuses.len(),
            kept@ == pending_positions(statuses@, j as int),
        decreases statuses.len() - j,
    {
        let pending = match &statuses[j] {
            Some(s) => same_text(s.as_str(), "pending"),
            None => false,
        };
        if pending {
            kept.push(j);
        }
        j = j + 1;
    }
    kept
}

} // verus!

verus! {

/// What a pending action waits on.
#[derive(Clone, Copy, Debug, PartialEq, Eq, Structural)]
pub enum PendingKind {
    Approval,
    CommandRegistry,
}

/// An action that waits for the operator: what it is, and its position in the
/// projection's list of pending approvals or of registry requests.
#[derive(Clone, Copy, Debug, PartialEq, Eq, Structural)]
pub struct PendingAction {
    pub kind: PendingKind,
    pub position: usize,
}

/// The pending actions: every pending approval, then every registry request, in order.
pub open spec fn pending_actions_spec(approvals: nat, requests: nat) -> Seq<PendingAction> {
    Seq::new(approvals + requests, |i: int|
        if i < approvals {
            PendingAction { kind: PendingKind::Approval, position: i as usize }
        } else {
            PendingAction { kind: PendingKind::CommandRegistry, position: (i - approvals) as usize }
        })
}

/// See [`pending_actions_spec`].
pub fn pending_actions(approvals: usize, requests: usize) -> (actions: Vec<PendingAction>)
    requires
        approvals + requests <= usize::MAX,
    ensures
        actions@ == pending_actions_spec(approvals as nat, requests as nat),
{
    let mut actions: Vec<PendingAction> = Vec::new();
    let mut i: usize = 0;
    while i < approvals
        invariant
            i <= approvals,
            actions@ == pending_actions_spec(approvals as nat, requests as nat).take(i as int),
        decreases approvals - i,
    {
        actions.push(PendingAction { kind: PendingKind::Approval, position: i });
        proof {
            assert(actions@ =~= pending_actions_spec(approvals as nat, requests as nat).take(i + 1));
        }
        i = i + 1;
    }
    let mut j: usize = 0;
    while j < requests
        invariant
            j <= requests,
            approvals + requests <= usize::MAX,
            actions@ == pending_actions_spec(approvals as nat, requests as nat).take(approvals + j),
        decreases requests - j,
    {
        actions.push(PendingAction { kind: PendingKind::CommandRegistry, position: j });
        proof {
            assert(actions@ =~= pending_actions_spec(approvals as nat, requests as nat).take(approvals + j + 1));
        }
        j = j + 1;
    }
    proof {
        assert(pending_actions_spec(approvals as nat, requests as nat).take((approvals + requests) as int)
            =~= pending_actions_spec(approvals as nat, requests as nat));
    }
    actions
}

} // verus!
