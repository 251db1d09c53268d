use vstd::prelude::*;
use std::collections::HashSet;
use crate::submission::{awaits_started_turn, starts_turn, submission_status};

verus! {

broadcast use vstd::std_specs::hash::group_hash_axioms;

/// Which sessions have a submit worker draining their accepted inputs, and
/// which sessions are being compacted. Sessions are named by their 128-bit ids.
pub struct SubmitCoordinator {
    drains: HashSet<u128>,
    compactions: HashSet<u128>,
}

/// The mathematical state of the coordinator.
pub struct CoordinatorView {
    pub drains: Set<u128>,
    pub compactions: Set<u128>,
}

impl View for SubmitCoordinator {
    type V = CoordinatorView;

    closed spec fn view(&self) -> CoordinatorView {
        CoordinatorView { drains: self.drains@, compactions: self.compactions@ }
    }
}

/// How a submission was admitted.
#[derive(Clone, Copy, Debug, PartialEq, Eq, Structural)]
pub struct SubmitAdmission {
    /// The session was being compacted: its input is queued and no worker starts.
    pub compaction_active: bool,
    /// A worker is already responsible for the session (or compaction holds it):
    /// this submission must not start one.
    pub already_active: bool,
}

/// What to do about a worker once a submission has been recorded.
#[derive(Clone, Copy, Debug, PartialEq, Eq, Structural)]
pub enum WorkerAction {
    /// Start a worker that drains the session's accepted inputs.
    SpawnWorker,
    /// Another worker held the session; look again shortly, in case it
    /// finished before this submission was recorded.
    ReconcileAfterDelay,
    /// Nothing: compaction will start the worker when it ends.
    Nothing,
}

/// Claiming the drain of a session: succeeds exactly when no worker holds it.
pub open spec fn claim(v: CoordinatorView, session: u128) -> (CoordinatorView, bool) {
    (CoordinatorView { drains: v.drains.insert(session), ..v }, !v.drains.contains(session))
}

/// Releasing the drain of a session when its worker stops.
pub open spec fn release(v: CoordinatorView, session: u128) -> CoordinatorView {
    CoordinatorView { drains: v.drains.remove(session), ..v }
}

/// Admitting a submission: a session under compaction is left alone; otherwise
/// the submission claims the session's drain.
pub open spec fn admission_step(v: CoordinatorView, session: u128) -> (CoordinatorView, SubmitAdmission) {
    let compaction_active = v.compactions.contains(session);
    if compaction_active {
        (v, SubmitAdmission { compaction_active: true, already_active: true })
    } else {
        let (next, claimed) = claim(v, session);
        (next, SubmitAdmission { compaction_active: false, already_active: !claimed })
    }
}

/// Undoing the claim of a submission that could not be recorded.
pub open spec fn reject(v: CoordinatorView, session: u128, admission: SubmitAdmission) -> CoordinatorView {
    if admission.already_active {
        v
    } else {
        release(v, session)
    }
}

/// The worker action owed to a recorded submission.
pub open spec fn action_after_accept(admission: SubmitAdmission) -> WorkerAction {
    if !admission.already_active {
        WorkerAction::SpawnWorker
    } else if !admission.compaction_active {
        WorkerAction::ReconcileAfterDelay
    } else {
        WorkerAction::Nothing
    }
}

/// Marking a session as being compacted.
pub open spec fn compaction_started(v: CoordinatorView, session: u128) -> CoordinatorView {
    CoordinatorView { compactions: v.compactions.insert(session), ..v }
}

/// Marking the compaction of a session as over.
pub open spec fn compaction_ended(v: CoordinatorView, session: u128) -> CoordinatorView {
    CoordinatorView { compactions: v.compactions.remove(session), ..v }
}

/// The sessions of the list, in order, that claiming them one after the other
/// finds unclaimed: not held by a worker before and not earlier in the list.
pub open spec fn newly_claimed(drains: Set<u128>, sessions: Seq<u128>) -> Seq<u128>
    decreases sessions.len(),
{
    if sessions.len() == 0 {
        Seq::<u128>::empty()
    } else {
        let earlier = newly_claimed(drains, sessions.drop_last());
        let s = sessions.last();
        if drains.contains(s) || sessions.drop_last().contains(s) {
            earlier
        } else {
            earlier.push(s)
        }
    }
}

/// After a compaction ended: the drain is claimed when accepted input waits.
pub open spec fn after_compaction(v: CoordinatorView, session: u128, has_waiting_input: bool) -> (CoordinatorView, bool) {
    if has_waiting_input {
        claim(v, session)
    } else {
        (v, false)
    }
}

/// How a submission ended once the store answered.
#[derive(Debug)]
pub enum SubmitSettlement {
    /// The store recorded it: what to do about a worker, whether the answer
    /// must look up the turn it started, and the status to report.
    Accepted { action: WorkerAction, awaits_started_turn: bool, status: String },
    /// The store refused it; the claim it made, if any, is released.
    Refused,
}

impl SubmitCoordinator {
    /// A coordinator with no worker and no compaction.
    pub fn new() -> (c: SubmitCoordinator)
        ensures
            c@.drains == Set::<u128>::empty(),
            c@.compactions == Set::<u128>::empty(),
    {
        SubmitCoordinator { drains: HashSet::new(), compactions: HashSet::new() }
    }

    /// Whether a worker holds the session.
    pub fn is_draining(&self, session: u128) -> (b: bool)
        ensures
            b == self@.drains.contains(session),
    {
        self.drains.contains(&session)
    }

    /// Whether the session is being compacted.
    pub fn is_compacting(&self, session: u128) -> (b: bool)
        ensures
            b == self@.compactions.contains(session),
    {
        self.compactions.contains(&session)
    }

    /// Claims the drain of a session; `true` means the caller must start a worker.
    pub fn claim_drain(&mut self, session: u128) -> (claimed: bool)
        ensures
            (final(self)@, claimed) == claim(old(self)@, session),
    {
        self.drains.insert(session)
    }

    /// Releases the drain of a session, when its worker stops.
    pub fn finish_drain(&mut self, session: u128)
        ensures
            final(self)@ == release(old(self)@, session),
    {
        self.drains.remove(&session);
    }

    /// Admits a submission to a session: see [`admission_step`].
    pub fn admit_submission(&mut self, session: u128) -> (admission: SubmitAdmission)
        ensures
            (final(self)@, admission) == admission_step(old(self)@, session),
    {
        let compaction_active = self.compactions.contains(&session);
        if compaction_active {
            SubmitAdmission { compaction_active: true, already_active: true }
        } else {
            let claimed = self.drains.insert(session);
            SubmitAdmission { compaction_active: false, already_active: !claimed }
        }
    }

    /// Undoes the claim of a submission that the store refused: see [`reject`].
    pub fn reject_submission(&mut self, session: u128, admission: SubmitAdmission)
        ensures
            final(self)@ == reject(old(self)@, session, admission),
    {
        if !admission.already_active {
            self.drains.remove(&session);
        }
    }

    /// Marks the session as being compacted.
    pub fn begin_compaction(&mut self, session: u128)
        ensures
            final(self)@ == compaction_started(old(self)@, session),
    {
        self.compactions.insert(session);
    }

    /// Marks the compaction of the session as over.
    pub fn end_compaction(&mut self, session: u128)
        ensures
            final(self)@ == compaction_ended(old(self)@, session),
    {
        self.compactions.remove(&session);
    }

    /// Settles an admitted submission once the store answered: `recorded` holds
    /// the disposition and status it was recorded with, or nothing when the
    /// store refused it. A refusal releases the submission's claim; an accepted
    /// submission leaves the coordinator as it is and says what to do next.
    pub fn settle_submission(&mut self, session: u128, admission: SubmitAdmission, recorded: Option<(&str, &str)>) -> (s: SubmitSettlement)
        ensures
            recorded is None ==> final(self)@ == reject(old(self)@, session, admission) && s is Refused,
            recorded matches Some((disposition, status)) ==> final(self)@ == old(self)@ && (s matches SubmitSettlement::Accepted {
                action,
                awaits_started_turn: awaits,
                status: shown,
            } && action == action_after_accept(admission) && awaits == starts_turn(disposition@)
                && shown@ == if starts_turn(disposition@) { "running"@ } else { status@ }),
    {
        match recorded {
            None => {
                self.reject_submission(session, admission);
                SubmitSettlement::Refused
            },
            Some((disposition, status)) => SubmitSettlement::Accepted {
                action: worker_action_after_accept(admission),
                awaits_started_turn: awaits_started_turn(disposition),
                status: submission_status(disposition, status),
            },
        }
    }

    /// After the compaction of a session ended (see [`Self::end_compaction`]):
    /// claims its drain when accepted input waits; `true` means the caller must
    /// start a worker.
    pub fn claim_after_compaction(&mut self, session: u128, has_waiting_input: bool) -> (claimed: bool)
        ensures
            (final(self)@, claimed) == after_compaction(old(self)@, session, has_waiting_input),
    {
        if has_waiting_input {
            self.drains.insert(session)
        } else {
            false
        }
    }

    /// Claims, in order, the drain of each session that has accepted input
    /// waiting (as found when the server starts), and returns the sessions for
    /// which a worker must be started: those that no worker held, each once.
    pub fn claim_waiting_sessions(&mut self, sessions: &Vec<u128>) -> (started: Vec<u128>)
        ensures
            started@ == newly_claimed(old(self)@.drains, sessions@),
            forall|x: u128| #[trigger] started@.contains(x) <==> (sessions@.contains(x) && !old(self)@.drains.contains(x)),
            started@.no_duplicates(),
            final(self)@.compactions == old(self)@.compactions,
            forall|x: u128| #[trigger] final(self)@.drains.contains(x) <==> (old(self)@.drains.contains(x) || sessions@.contains(x)),
    {
        let ghost start = self@;
        let mut started: Vec<u128> = Vec::new();
        let mut i: usize = 0;
        while i < sessions.len()
            invariant
                i <= sessions.len(),
                self@.compactions == start.compactions,
                started@ == newly_claimed(start.drains, sessions@.take(i as int)),
                forall|x: u128| #[trigger] self@.drains.contains(x) <==> (start.drains.contains(x) || sessions@.take(i as int).contains(x)),
            decreases sessions.len() - i,
        {
            let s = sessions[i];
            proof {
                assert(sessions@.take(i + 1).drop_last() =~= sessions@.take(i as int));
                assert(sessions@.take(i + 1).last() == s);
                assert forall|x: u128| #[trigger] sessions@.take(i + 1).contains(x) <==> (sessions@.take(i as int).contains(x) || x == s) by {
                    if sessions@.take(i + 1).contains(x) {
                        let k = choose|k: int| 0 <= k < i + 1 && #[trigger] sessions@.take(i + 1)[k] == x;
                        if k < i {
                            assert(sessions@.take(i as int)[k] == x);
                        }
                    }
                    if sessions@.take(i as int).contains(x) {
                        let k = choose|k: int| 0 <= k < i && #[trigger] sessions@.take(i as int)[k] == x;
                        assert(sessions@.take(i + 1)[k] == x);
                    }
                    if x == s {
                        assert(sessions@.take(i + 1)[i as int] == x);
                    }
                }
            }
            let ghost before = self@.drains;
            let claimed = self.drains.insert(s);
            assert(self@.drains == before.insert(s));
            assert(claimed == !before.contains(s));
            assert(claimed == !(start.drains.contains(s) || sessions@.take(i as int).contains(s)));
            if claimed {
                started.push(s);
            }
            assert(started@ == newly_claimed(start.drains, sessions@.take(i + 1)));
            i = i + 1;
        }
        proof {
            assert(sessions@.take(sessions@.len() as int) =~= sessions@);
            law_waiting_sessions_start_once(start.drains, sessions@);
            law_every_free_waiting_session_starts(start.drains, sessions@);
        }
        started
    }
}

/// The worker action owed to a recorded submission: a worker is started when
/// the submission claimed the session, a delayed look is taken when another
/// worker held it, and nothing is done while compaction holds it.
pub fn worker_action_after_accept(admission: SubmitAdmission) -> (action: WorkerAction)
    ensures
        action == action_after_accept(admission),
{
    if !admission.already_active {
        WorkerAction::SpawnWorker
    } else if !admission.compaction_active {
        WorkerAction::ReconcileAfterDelay
    } else {
        WorkerAction::Nothing
    }
}

/// After a submission raced with a finishing worker: the drain is claimed again
/// only when accepted input is still waiting and no turn is running.
pub fn should_claim_after_race(has_accepted_input: bool, has_running_turn: bool) -> (b: bool)
    ensures
        b == (has_accepted_input && !has_running_turn),
{
    has_accepted_input && !has_running_turn
}

} // verus!

verus! {

/// A session never has two workers: once its drain is claimed, every further
/// claim fails until the drain is released, and a claim succeeds only for a
/// session that no worker held.
pub proof fn law_claim_is_exclusive(v: CoordinatorView, session: u128)
    ensures
        claim(v, session).1 ==> !v.drains.contains(session),
        claim(v, session).0.drains.contains(session),
        !claim(claim(v, session).0, session).1,
{
}

/// Once the worker of a session stops and releases its drain, the next claim succeeds.
pub proof fn law_release_then_claim(v: CoordinatorView, session: u128)
    ensures
        claim(release(v, session), session).1,
        !release(v, session).drains.contains(session),
{
}

/// A submission that the store refuses leaves the coordinator as it found it.
pub proof fn law_reject_undoes_admission(v: CoordinatorView, session: u128)
    ensures
        reject(admission_step(v, session).0, session, admission_step(v, session).1) == v,
{
    if !v.compactions.contains(session) {
        if v.drains.contains(session) {
            assert(v.drains.insert(session) =~= v.drains);
        } else {
            assert(v.drains.insert(session).remove(session) =~= v.drains);
        }
    }
}

/// While a session is being compacted, a submission to it claims nothing and
/// starts no worker: the end of the compaction takes care of the queued input.
pub proof fn law_compaction_holds_submissions(v: CoordinatorView, session: u128)
    requires
        v.compactions.contains(session),
    ensures
        admission_step(v, session).0 == v,
        action_after_accept(admission_step(v, session).1) == WorkerAction::Nothing,
{
}

/// A submission starts a worker only for a session that was neither held by a
/// worker nor being compacted, and the session is then held.
pub proof fn law_spawn_only_for_free_session(v: CoordinatorView, session: u128)
    ensures
        action_after_accept(admission_step(v, session).1) == WorkerAction::SpawnWorker <==>
            (!v.drains.contains(session) && !v.compactions.contains(session)),
        action_after_accept(admission_step(v, session).1) == WorkerAction::SpawnWorker ==>
            admission_step(v, session).0.drains.contains(session),
{
}

/// A compaction that starts and ends leaves the coordinator as it found it,
/// when the session was not already being compacted.
pub proof fn law_compaction_round_trip(v: CoordinatorView, session: u128)
    requires
        !v.compactions.contains(session),
    ensures
        compaction_ended(compaction_started(v, session), session) == v,
{
    assert(v.compactions.insert(session).remove(session) =~= v.compactions);
}

/// When a compaction ends and input was queued meanwhile, a worker is started
/// exactly when none held the session: the queued input is never left without one.
pub proof fn law_compaction_end_frees_the_session(v: CoordinatorView, session: u128)
    ensures
        after_compaction(compaction_ended(compaction_started(v, session), session), session, true).1
            == !v.drains.contains(session),
        after_compaction(compaction_ended(compaction_started(v, session), session), session, true).0.drains.contains(session),
        !compaction_ended(compaction_started(v, session), session).compactions.contains(session),
{
}

/// At start-up every session listed as waiting that no worker held gets a
/// worker, and no other session does.
pub proof fn law_every_free_waiting_session_starts(drains: Set<u128>, sessions: Seq<u128>)
    ensures
        forall|x: u128| #[trigger] newly_claimed(drains, sessions).contains(x) <==> (sessions.contains(x) && !drains.contains(x)),
    decreases sessions.len(),
{
    if sessions.len() > 0 {
        let rest = sessions.drop_last();
        let t = sessions.last();
        law_every_free_waiting_session_starts(drains, rest);
        let earlier = newly_claimed(drains, rest);
        let now = newly_claimed(drains, sessions);
        assert forall|x: u128| #[trigger] sessions.contains(x) <==> (rest.contains(x) || x == t) by {
            if sessions.contains(x) {
                let k = choose|k: int| 0 <= k < sessions.len() && sessions[k] == x;
                if k < rest.len() {
                    assert(rest[k] == x);
                }
            }
            if rest.contains(x) {
                let k = choose|k: int| 0 <= k < rest.len() && rest[k] == x;
                assert(sessions[k] == x);
            }
            if x == t {
                assert(sessions[sessions.len() - 1] == x);
            }
        }
        if drains.contains(t) || rest.contains(t) {
            assert(now == earlier);
        } else {
            assert(now == earlier.push(t));
            assert forall|x: u128| #[trigger] now.contains(x) <==> (earlier.contains(x) || x == t) by {
                if now.contains(x) {
                    let k = choose|k: int| 0 <= k < now.len() && now[k] == x;
                    if k < earlier.len() {
                        assert(earlier[k] == x);
                    }
                }
                if earlier.contains(x) {
                    let k = choose|k: int| 0 <= k < earlier.len() && earlier[k] == x;
                    assert(now[k] == x);
                }
                if x == t {
                    assert(now[now.len() - 1] == x);
                }
            }
        }
    }
}

/// At start-up a worker is started at most once per session, and only for a
/// session listed as waiting that no worker held.
pub proof fn law_waiting_sessions_start_once(drains: Set<u128>, sessions: Seq<u128>)
    ensures
        newly_claimed(drains, sessions).no_duplicates(),
        forall|i: int| 0 <= i < newly_claimed(drains, sessions).len() ==>
            !drains.contains(#[trigger] newly_claimed(drains, sessions)[i]) && sessions.contains(newly_claimed(drains, sessions)[i]),
    decreases sessions.len(),
{
    if sessions.len() > 0 {
        let rest = sessions.drop_last();
        law_waiting_sessions_start_once(drains, rest);
        let earlier = newly_claimed(drains, rest);
        let s = sessions.last();
        assert forall|i: int| 0 <= i < earlier.len() implies sessions.contains(#[trigger] earlier[i]) by {
            let k = choose|k: int| 0 <= k < rest.len() && rest[k] == earlier[i];
            assert(sessions[k] == earlier[i]);
        }
        if !(drains.contains(s) || rest.contains(s)) {
            assert forall|i: int| 0 <= i < earlier.len() implies #[trigger] earlier[i] != s by {
                assert(rest.contains(earlier[i]));
            }
            assert(sessions[sessions.len() - 1] == s);
        }
    }
}

} // verus!
