use robdex_agent_runtime::coordination::SubmitSettlement;
use robdex_agent_runtime::coordination::{
    should_claim_after_race, worker_action_after_accept, SubmitAdmission, SubmitCoordinator, WorkerAction,
};

#[test]
fn a_session_gets_one_worker_at_a_time() {
    let mut c = SubmitCoordinator::new();
    assert!(c.claim_drain(7));
    assert!(!c.claim_drain(7));
    assert!(c.is_draining(7));
    c.finish_drain(7);
    assert!(!c.is_draining(7));
    assert!(c.claim_drain(7));
}

#[test]
fn first_submission_spawns_and_second_reconciles() {
    let mut c = SubmitCoordinator::new();
    let first = c.admit_submission(1);
    assert_eq!(first, SubmitAdmission { compaction_active: false, already_active: false });
    assert_eq!(worker_action_after_accept(first), WorkerAction::SpawnWorker);
    let second = c.admit_submission(1);
    assert_eq!(second, SubmitAdmission { compaction_active: false, already_active: true });
    assert_eq!(worker_action_after_accept(second), WorkerAction::ReconcileAfterDelay);
}

#[test]
fn compaction_holds_submissions() {
    let mut c = SubmitCoordinator::new();
    c.begin_compaction(3);
    assert!(c.is_compacting(3));
    let admission = c.admit_submission(3);
    assert_eq!(admission, SubmitAdmission { compaction_active: true, already_active: true });
    assert_eq!(worker_action_after_accept(admission), WorkerAction::Nothing);
    assert!(!c.is_draining(3));
    c.end_compaction(3);
    assert!(!c.is_compacting(3));
    assert!(c.claim_drain(3));
}

#[test]
fn refused_submission_releases_its_claim() {
    let mut c = SubmitCoordinator::new();
    let admission = c.admit_submission(9);
    assert!(c.is_draining(9));
    c.reject_submission(9, admission);
    assert!(!c.is_draining(9));

    assert!(c.claim_drain(4));
    let admission = c.admit_submission(4);
    c.reject_submission(4, admission);
    assert!(c.is_draining(4), "another worker's claim stays");
}

#[test]
fn startup_claims_each_waiting_session_once() {
    let mut c = SubmitCoordinator::new();
    assert!(c.claim_drain(2));
    let started = c.claim_waiting_sessions(&vec![1, 2, 3, 1, 3, 4]);
    assert_eq!(started, vec![1, 3, 4]);
    for s in [1, 2, 3, 4] {
        assert!(c.is_draining(s));
    }
}

#[test]
fn race_reconcile_needs_waiting_input_and_idle_session() {
    assert!(should_claim_after_race(true, false));
    assert!(!should_claim_after_race(true, true));
    assert!(!should_claim_after_race(false, false));
}

#[test]
fn settled_submissions_say_what_to_do() {
    let mut c = SubmitCoordinator::new();
    let admission = c.admit_submission(5);
    match c.settle_submission(5, admission, Some(("idle_turn_start", "accepted"))) {
        SubmitSettlement::Accepted { action, awaits_started_turn, status } => {
            assert_eq!(action, WorkerAction::SpawnWorker);
            assert!(awaits_started_turn);
            assert_eq!(status, "running");
        }
        other => panic!("{other:?}"),
    }
    assert!(c.is_draining(5));
    let second = c.admit_submission(5);
    match c.settle_submission(5, second, Some(("queued_after_turn", "accepted"))) {
        SubmitSettlement::Accepted { action, awaits_started_turn, status } => {
            assert_eq!(action, WorkerAction::ReconcileAfterDelay);
            assert!(!awaits_started_turn);
            assert_eq!(status, "accepted");
        }
        other => panic!("{other:?}"),
    }
    let mut fresh = SubmitCoordinator::new();
    let refused = fresh.admit_submission(6);
    assert!(matches!(fresh.settle_submission(6, refused, None), SubmitSettlement::Refused));
    assert!(!fresh.is_draining(6));
}

#[test]
fn compaction_end_starts_worker_for_queued_input() {
    let mut c = SubmitCoordinator::new();
    c.begin_compaction(8);
    let held = c.admit_submission(8);
    assert_eq!(worker_action_after_accept(held), WorkerAction::Nothing);
    c.end_compaction(8);
    assert!(!c.claim_after_compaction(8, false));
    assert!(c.claim_after_compaction(8, true));
    assert!(!c.claim_after_compaction(8, true));
}
