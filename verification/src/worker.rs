use vstd::prelude::*;
use crate::text::same_text;

verus! {

/// An input that was accepted for a session and waits to be applied.
#[derive(Clone, Debug)]
pub struct SubmittedInput {
    pub id: u128,
    pub disposition: String,
    pub target_turn_id: Option<u128>,
    pub content: String,
}

/// Where the submit worker of a session stands.
#[derive(Clone, Debug)]
pub enum WorkerPhase {
    /// Waiting for the next accepted input of the session.
    AwaitingInput,
    /// Waiting to learn whether the session may still take input.
    AwaitingArchiveCheck(SubmittedInput),
    /// Waiting for a pending steering of a running turn to continue.
    AwaitingSteering(SubmittedInput),
    /// Waiting for the input to be sent to the model.
    AwaitingDispatch(SubmittedInput),
    /// The worker has stopped; its drain is released.
    Stopped,
}

/// What the outside world reports back to the worker.
#[derive(Debug)]
pub enum WorkerEvent {
    /// The next accepted input, or none when the queue is empty.
    NextInput(Option<SubmittedInput>),
    /// Reading the queue failed.
    NextInputFailed(String),
    /// The session may take input (`Ok`) or has ended (`Err`, with why).
    ArchiveCheck(Result<(), String>),
    /// The steering of the target turn continued (`Ok(true)`), was not
    /// pending (`Ok(false)`), or failed.
    SteeringResult(Result<bool, String>),
    /// The input was applied in a turn, or applying it failed.
    DispatchResult(Result<u128, String>),
}

/// Why the worker stopped, with what must be recorded about it.
#[derive(Clone, Debug)]
pub enum StopReason {
    /// The queue is empty.
    Drained,
    /// Reading the queue failed: a `submitted_input.drainFailed` event is recorded.
    DrainFailed { error: String },
    /// The session ended: its unapplied inputs are abandoned and a
    /// `submitted_input.abandoned` event is recorded.
    Abandoned { input_id: u128, reason: String },
    /// Applying the input failed: the input is marked failed and a
    /// `submitted_input.applyFailed` event is recorded.
    ApplyFailed { input_id: u128, error: String },
}

/// What the worker asks the outside world to do next.
#[derive(Clone, Debug)]
pub enum WorkerCommand {
    FetchNextInput,
    CheckNotArchived,
    ContinueSteering { target_turn_id: u128 },
    Dispatch(SubmittedInput),
    /// Record what the reason says, then release the session's drain.
    Stop(StopReason),
}

/// The mathematical content of a submitted input.
pub struct InputView {
    pub id: u128,
    pub disposition: Seq<char>,
    pub target_turn_id: Option<u128>,
    pub content: Seq<char>,
}

impl View for SubmittedInput {
    type V = InputView;

    open spec fn view(&self) -> InputView {
        InputView {
            id: self.id,
            disposition: self.disposition@,
            target_turn_id: self.target_turn_id,
            content: self.content@,
        }
    }
}

pub enum PhaseView {
    AwaitingInput,
    AwaitingArchiveCheck(InputView),
    AwaitingSteering(InputView),
    AwaitingDispatch(InputView),
    Stopped,
}

impl View for WorkerPhase {
    type V = PhaseView;

    open spec fn view(&self) -> PhaseView {
        match self {
            WorkerPhase::AwaitingInput => PhaseView::AwaitingInput,
            WorkerPhase::AwaitingArchiveCheck(i) => PhaseView::AwaitingArchiveCheck(i@),
            WorkerPhase::AwaitingSteering(i) => PhaseView::AwaitingSteering(i@),
            WorkerPhase::AwaitingDispatch(i) => PhaseView::AwaitingDispatch(i@),
            WorkerPhase::Stopped => PhaseView::Stopped,
        }
    }
}

pub enum EventView {
    NextInput(Option<InputView>),
    NextInputFailed(Seq<char>),
    ArchiveCheck(Result<(), Seq<char>>),
    SteeringResult(Result<bool, Seq<char>>),
    DispatchResult(Result<u128, Seq<char>>),
}

impl View for WorkerEvent {
    type V = EventView;

    open spec fn view(&self) -> EventView {
        match self {
            WorkerEvent::NextInput(None) => EventView::NextInput(None),
            WorkerEvent::NextInput(Some(i)) => EventView::NextInput(Some(i@)),
            WorkerEvent::NextInputFailed(e) => EventView::NextInputFailed(e@),
            WorkerEvent::ArchiveCheck(Ok(())) => EventView::ArchiveCheck(Ok(())),
            WorkerEvent::ArchiveCheck(Err(e)) => EventView::ArchiveCheck(Err(e@)),
            WorkerEvent::SteeringResult(Ok(b)) => EventView::SteeringResult(Ok(*b)),
            WorkerEvent::SteeringResult(Err(e)) => EventView::SteeringResult(Err(e@)),
            WorkerEvent::DispatchResult(Ok(t)) => EventView::DispatchResult(Ok(*t)),
            WorkerEvent::DispatchResult(Err(e)) => EventView::DispatchResult(Err(e@)),
        }
    }
}

pub enum StopView {
    Drained,
    DrainFailed(Seq<char>),
    Abandoned(u128, Seq<char>),
    ApplyFailed(u128, Seq<char>),
}

pub enum CommandView {
    FetchNextInput,
    CheckNotArchived,
    ContinueSteering(u128),
    Dispatch(InputView),
    Stop(StopView),
}

impl View for WorkerCommand {
    type V = CommandView;

    open spec fn view(&self) -> CommandView {
        match self {
            WorkerCommand::FetchNextInput => CommandView::FetchNextInput,
            WorkerCommand::CheckNotArchived => CommandView::CheckNotArchived,
            WorkerCommand::ContinueSteering { target_turn_id } => CommandView::ContinueSteering(*target_turn_id),
            WorkerCommand::Dispatch(i) => CommandView::Dispatch(i@),
            WorkerCommand::Stop(StopReason::Drained) => CommandView::Stop(StopView::Drained),
            WorkerCommand::Stop(StopReason::DrainFailed { error }) => CommandView::Stop(StopView::DrainFailed(error@)),
            WorkerCommand::Stop(StopReason::Abandoned { input_id, reason }) => CommandView::Stop(StopView::Abandoned(*input_id, reason@)),
            WorkerCommand::Stop(StopReason::ApplyFailed { input_id, error }) => CommandView::Stop(StopView::ApplyFailed(*input_id, error@)),
        }
    }
}

/// The disposition of an input that steers a turn that is already running.
pub open spec fn is_steering(input: InputView) -> bool {
    input.disposition == "active_turn_steering"@ && input.target_turn_id is Some
}

/// The event is an answer to what the phase waits for.
pub open spec fn event_fits(phase: PhaseView, event: EventView) -> bool {
    match phase {
        PhaseView::AwaitingInput => event is NextInput || event is NextInputFailed,
        PhaseView::AwaitingArchiveCheck(_) => event is ArchiveCheck,
        PhaseView::AwaitingSteering(_) => event is SteeringResult,
        PhaseView::AwaitingDispatch(_) => event is DispatchResult,
        PhaseView::Stopped => false,
    }
}

/// One step of the submit worker: the phase it moves to and what it asks for,
/// in answer to an event that fits its phase.
pub open spec fn step(phase: PhaseView, has_model: bool, event: EventView) -> (PhaseView, CommandView) {
    match (phase, event) {
        (PhaseView::AwaitingInput, EventView::NextInput(None)) =>
            (PhaseView::Stopped, CommandView::Stop(StopView::Drained)),
        (PhaseView::AwaitingInput, EventView::NextInputFailed(e)) =>
            (PhaseView::Stopped, CommandView::Stop(StopView::DrainFailed(e))),
        (PhaseView::AwaitingInput, EventView::NextInput(Some(input))) =>
            (PhaseView::AwaitingArchiveCheck(input), CommandView::CheckNotArchived),
        (PhaseView::AwaitingArchiveCheck(input), EventView::ArchiveCheck(Err(e))) =>
            (PhaseView::Stopped, CommandView::Stop(StopView::Abandoned(input.id, e))),
        (PhaseView::AwaitingArchiveCheck(input), EventView::ArchiveCheck(Ok(()))) =>
            if has_model && is_steering(input) {
                (PhaseView::AwaitingSteering(input), CommandView::ContinueSteering(input.target_turn_id->0))
            } else {
                (PhaseView::AwaitingDispatch(input), CommandView::Dispatch(input))
            },
        (PhaseView::AwaitingSteering(input), EventView::SteeringResult(Ok(true))) =>
            (PhaseView::AwaitingInput, CommandView::FetchNextInput),
        (PhaseView::AwaitingSteering(input), EventView::SteeringResult(Ok(false))) =>
            (PhaseView::AwaitingDispatch(input), CommandView::Dispatch(input)),
        (PhaseView::AwaitingSteering(input), EventView::SteeringResult(Err(e))) =>
            (PhaseView::Stopped, CommandView::Stop(StopView::ApplyFailed(input.id, e))),
        (PhaseView::AwaitingDispatch(input), EventView::DispatchResult(Ok(_))) =>
            (PhaseView::AwaitingInput, CommandView::FetchNextInput),
        (PhaseView::AwaitingDispatch(input), EventView::DispatchResult(Err(e))) =>
            (PhaseView::Stopped, CommandView::Stop(StopView::ApplyFailed(input.id, e))),
        _ => (phase, CommandView::Stop(StopView::Drained)),
    }
}

/// The first step of a worker that has just claimed a session.
pub fn worker_start() -> (r: (WorkerPhase, WorkerCommand))
    ensures
        r.0@ == PhaseView::AwaitingInput,
        r.1@ == CommandView::FetchNextInput,
{
    (WorkerPhase::AwaitingInput, WorkerCommand::FetchNextInput)
}

fn copy_input(input: &SubmittedInput) -> (c: SubmittedInput)
    ensures
        c@ == input@,
{
    SubmittedInput {
        id: input.id,
        disposition: String::from_str(input.disposition.as_str()),
        target_turn_id: input.target_turn_id,
        content: String::from_str(input.content.as_str()),
    }
}

/// Answers an event of the submit worker of a session: returns the worker's
/// next phase and what it asks to be done (see [`step`]). `has_model` says
/// whether a model client is configured, which steering needs.
pub fn worker_step(phase: WorkerPhase, has_model: bool, event: WorkerEvent) -> (r: (WorkerPhase, WorkerCommand))
    requires
        event_fits(phase@, event@),
    ensures
        (r.0@, r.1@) == step(phase@, has_model, event@),
{
    match (phase, event) {
        (WorkerPhase::AwaitingInput, WorkerEvent::NextInput(None)) =>
            (WorkerPhase::Stopped, WorkerCommand::Stop(StopReason::Drained)),
        (WorkerPhase::AwaitingInput, WorkerEvent::NextInputFailed(e)) =>
            (WorkerPhase::Stopped, WorkerCommand::Stop(StopReason::DrainFailed { error: e })),
        (WorkerPhase::AwaitingInput, WorkerEvent::NextInput(Some(input))) =>
            (WorkerPhase::AwaitingArchiveCheck(input), WorkerCommand::CheckNotArchived),
        (WorkerPhase::AwaitingArchiveCheck(input), WorkerEvent::ArchiveCheck(check)) => {
            match check {
                Err(e) => (
                    WorkerPhase::Stopped,
                    WorkerCommand::Stop(StopReason::Abandoned { input_id: input.id, reason: e }),
                ),
                Ok(()) => {
                    let steering = same_text(input.disposition.as_str(), "active_turn_steering");
                    if has_model && steering && input.target_turn_id.is_some() {
                        let target = match input.target_turn_id {
                            Some(t) => t,
                            None => 0,
                        };
                        (WorkerPhase::AwaitingSteering(input), WorkerCommand::ContinueSteering { target_turn_id: target })
                    } else {
                        let d = copy_input(&input);
                        (WorkerPhase::AwaitingDispatch(input), WorkerCommand::Dispatch(d))
                    }
                },
            }
        },
        (WorkerPhase::AwaitingSteering(input), WorkerEvent::SteeringResult(result)) => {
            match result {
                Ok(true) => (WorkerPhase::AwaitingInput, WorkerCommand::FetchNextInput),
                Ok(false) => {
                    let d = copy_input(&input);
                    (WorkerPhase::AwaitingDispatch(input), WorkerCommand::Dispatch(d))
                },
                Err(e) => (
                    WorkerPhase::Stopped,
                    WorkerCommand::Stop(StopReason::ApplyFailed { input_id: input.id, error: e }),
                ),
            }
        },
        (WorkerPhase::AwaitingDispatch(input), WorkerEvent::DispatchResult(result)) => {
            match result {
                Ok(_) => (WorkerPhase::AwaitingInput, WorkerCommand::FetchNextInput),
                Err(e) => (
                    WorkerPhase::Stopped,
                    WorkerCommand::Stop(StopReason::ApplyFailed { input_id: input.id, error: e }),
                ),
            }
        },
        _ => {
            assert(false);
            (WorkerPhase::Stopped, WorkerCommand::Stop(StopReason::Drained))
        },
    }
}

} // verus!

verus! {

/// The event reports a failure.
pub open spec fn is_failure(event: EventView) -> bool {
    match event {
        EventView::NextInputFailed(_) => true,
        EventView::ArchiveCheck(r) => r is Err,
        EventView::SteeringResult(r) => r is Err,
        EventView::DispatchResult(r) => r is Err,
        EventView::NextInput(_) => false,
    }
}

/// The input that a phase holds.
pub open spec fn held_input(phase: PhaseView) -> Option<InputView> {
    match phase {
        PhaseView::AwaitingArchiveCheck(i) => Some(i),
        PhaseView::AwaitingSteering(i) => Some(i),
        PhaseView::AwaitingDispatch(i) => Some(i),
        _ => None,
    }
}

/// Every failure stops the worker, and the worker stops exactly when it asks
/// for its stop to be recorded (after which its drain is released).
pub proof fn law_failures_stop_the_worker(phase: PhaseView, has_model: bool, event: EventView)
    requires
        event_fits(phase, event),
    ensures
        is_failure(event) ==> step(phase, has_model, event).0 is Stopped,
        step(phase, has_model, event).0 is Stopped <==> step(phase, has_model, event).1 is Stop,
{
}

/// An input is sent to the model only after the session was found still open,
/// and only once a pending steering (if any) did not take it over; what is
/// sent is the input the worker holds.
pub proof fn law_dispatch_only_after_checks(phase: PhaseView, has_model: bool, event: EventView)
    requires
        event_fits(phase, event),
        step(phase, has_model, event).1 is Dispatch,
    ensures
        (phase is AwaitingArchiveCheck && (event matches EventView::ArchiveCheck(Ok(_))))
            || (phase is AwaitingSteering && (event matches EventView::SteeringResult(Ok(b)) && !b)),
        held_input(phase) == Some(step(phase, has_model, event).1->Dispatch_0),
{
}

/// Steering is attempted only with a model client, for an input that steers a
/// running turn, and aims at that input's target turn.
pub proof fn law_steering_needs_model(phase: PhaseView, has_model: bool, event: EventView)
    requires
        event_fits(phase, event),
        step(phase, has_model, event).1 is ContinueSteering,
    ensures
        has_model,
        held_input(phase) matches Some(input) && is_steering(input)
            && Some(step(phase, has_model, event).1->ContinueSteering_0) == input.target_turn_id,
{
}

} // verus!

verus! {

/// The worker's phase and the commands it issued after answering the events in order.
pub open spec fn run(phase: PhaseView, has_model: bool, events: Seq<EventView>) -> (PhaseView, Seq<CommandView>)
    decreases events.len(),
{
    if events.len() == 0 {
        (phase, Seq::<CommandView>::empty())
    } else {
        let (p, cs) = run(phase, has_model, events.drop_last());
        let (next, c) = step(p, has_model, events.last());
        (next, cs.push(c))
    }
}

/// Every event answers what the worker was waiting for when it came.
pub open spec fn all_fit(phase: PhaseView, has_model: bool, events: Seq<EventView>) -> bool
    decreases events.len(),
{
    if events.len() == 0 {
        true
    } else {
        all_fit(phase, has_model, events.drop_last())
            && event_fits(run(phase, has_model, events.drop_last()).0, events.last())
    }
}

/// The inputs that the store handed out, in order.
pub open spec fn fetched(events: Seq<EventView>) -> Seq<InputView>
    decreases events.len(),
{
    if events.len() == 0 {
        Seq::<InputView>::empty()
    } else {
        match events.last() {
            EventView::NextInput(Some(i)) => fetched(events.drop_last()).push(i),
            _ => fetched(events.drop_last()),
        }
    }
}

/// The number of answers to dispatches.
pub open spec fn dispatch_results(events: Seq<EventView>) -> nat
    decreases events.len(),
{
    if events.len() == 0 {
        0
    } else if events.last() is DispatchResult {
        dispatch_results(events.drop_last()) + 1
    } else {
        dispatch_results(events.drop_last())
    }
}

/// The inputs that the worker sent to the model, in order.
pub open spec fn dispatched(commands: Seq<CommandView>) -> Seq<InputView>
    decreases commands.len(),
{
    if commands.len() == 0 {
        Seq::<InputView>::empty()
    } else {
        match commands.last() {
            CommandView::Dispatch(i) => dispatched(commands.drop_last()).push(i),
            _ => dispatched(commands.drop_last()),
        }
    }
}

/// `f` places the elements of `a` at increasing positions of `b`.
pub open spec fn embeds(a: Seq<InputView>, b: Seq<InputView>, f: Seq<int>) -> bool {
    &&& f.len() == a.len()
    &&& forall|k: int| 0 <= k < f.len() ==> 0 <= #[trigger] f[k] < b.len() && b[f[k]] == a[k]
    &&& forall|j: int, k: int| 0 <= j < k < f.len() ==> #[trigger] f[j] < #[trigger] f[k]
}

/// `a` is `b` with some elements left out.
pub open spec fn is_subsequence(a: Seq<InputView>, b: Seq<InputView>) -> bool {
    exists|f: Seq<int>| embeds(a, b, f)
}

proof fn lemma_subsequence_extend(a: Seq<InputView>, b: Seq<InputView>, x: InputView)
    requires
        is_subsequence(a, b),
    ensures
        is_subsequence(a, b.push(x)),
{
    let f = choose|f: Seq<int>| embeds(a, b, f);
    assert(embeds(a, b.push(x), f));
}

proof fn lemma_subsequence_push_both(a: Seq<InputView>, b: Seq<InputView>, x: InputView)
    requires
        is_subsequence(a, b),
    ensures
        is_subsequence(a.push(x), b.push(x)),
{
    let f = choose|f: Seq<int>| embeds(a, b, f);
    let g = f.push(b.len() as int);
    assert(embeds(a.push(x), b.push(x), g));
}

/// What holds of a worker's history in each phase: the sent inputs are, in
/// order, fetched inputs; the input held is the last one fetched; and at most
/// one sent input waits for its answer, the held one.
pub open spec fn history_holds(p: PhaseView, fetched: Seq<InputView>, sent: Seq<InputView>, answered: nat) -> bool {
    match p {
        PhaseView::AwaitingInput | PhaseView::Stopped => is_subsequence(sent, fetched) && sent.len() == answered,
        PhaseView::AwaitingArchiveCheck(i) => {
            &&& fetched.len() > 0 && fetched.last() == i
            &&& is_subsequence(sent, fetched.drop_last())
            &&& sent.len() == answered
        },
        PhaseView::AwaitingSteering(i) => {
            &&& fetched.len() > 0 && fetched.last() == i
            &&& is_subsequence(sent, fetched.drop_last())
            &&& sent.len() == answered
        },
        PhaseView::AwaitingDispatch(i) => {
            &&& fetched.len() > 0 && fetched.last() == i
            &&& sent.len() > 0 && sent.last() == i
            &&& is_subsequence(sent.drop_last(), fetched.drop_last())
            &&& sent.len() == answered + 1
        },
    }
}

proof fn lemma_history(has_model: bool, events: Seq<EventView>)
    requires
        all_fit(PhaseView::AwaitingInput, has_model, events),
    ensures
        history_holds(
            run(PhaseView::AwaitingInput, has_model, events).0,
            fetched(events),
            dispatched(run(PhaseView::AwaitingInput, has_model, events).1),
            dispatch_results(events),
        ),
    decreases events.len(),
{
    let start = PhaseView::AwaitingInput;
    if events.len() == 0 {
        assert(embeds(Seq::<InputView>::empty(), Seq::<InputView>::empty(), Seq::<int>::empty()));
    } else {
        let prev = events.drop_last();
        lemma_history(has_model, prev);
        let (p, cs) = run(start, has_model, prev);
        let e = events.last();
        let (next, c) = step(p, has_model, e);
        let fs = fetched(prev);
        let ds = dispatched(cs);
        assert(cs.push(c).drop_last() =~= cs);
        match p {
            PhaseView::AwaitingInput => {
                if let EventView::NextInput(Some(i)) = e {
                    assert(fs.push(i).drop_last() =~= fs);
                }
            },
            PhaseView::AwaitingArchiveCheck(i) => {
                if e matches EventView::ArchiveCheck(Ok(_)) {
                    if !(has_model && is_steering(i)) {
                        assert(ds.push(i).drop_last() =~= ds);
                    }
                } else {
                    assert(fs =~= fs.drop_last().push(i));
                    lemma_subsequence_extend(ds, fs.drop_last(), i);
                }
            },
            PhaseView::AwaitingSteering(i) => {
                if e matches EventView::SteeringResult(Ok(b)) && !b {
                    assert(ds.push(i).drop_last() =~= ds);
                } else {
                    assert(fs =~= fs.drop_last().push(i));
                    lemma_subsequence_extend(ds, fs.drop_last(), i);
                }
            },
            PhaseView::AwaitingDispatch(i) => {
                assert(fs =~= fs.drop_last().push(i));
                assert(ds =~= ds.drop_last().push(i));
                lemma_subsequence_push_both(ds.drop_last(), fs.drop_last(), i);
            },
            PhaseView::Stopped => {},
        }
    }
}

/// A session's worker sends its inputs to the model one at a time and in the
/// order in which the store hands them out: over any history of a worker, the
/// inputs it sent are, in order, inputs it fetched (each fetched input at most
/// once), and every sent input but possibly the last has been answered before
/// the next was sent. With one worker per session, no two of a session's
/// inputs are ever being applied at once.
pub proof fn law_inputs_are_applied_one_at_a_time_in_fetch_order(has_model: bool, events: Seq<EventView>)
    requires
        all_fit(PhaseView::AwaitingInput, has_model, events),
    ensures
        is_subsequence(dispatched(run(PhaseView::AwaitingInput, has_model, events).1), fetched(events)),
        dispatched(run(PhaseView::AwaitingInput, has_model, events).1).len() == dispatch_results(events)
            + if run(PhaseView::AwaitingInput, has_model, events).0 is AwaitingDispatch { 1nat } else { 0nat },
{
    lemma_history(has_model, events);
    let (p, cs) = run(PhaseView::AwaitingInput, has_model, events);
    let fs = fetched(events);
    let ds = dispatched(cs);
    match p {
        PhaseView::AwaitingArchiveCheck(i) => {
            assert(fs =~= fs.drop_last().push(i));
            lemma_subsequence_extend(ds, fs.drop_last(), i);
        },
        PhaseView::AwaitingSteering(i) => {
            assert(fs =~= fs.drop_last().push(i));
            lemma_subsequence_extend(ds, fs.drop_last(), i);
        },
        PhaseView::AwaitingDispatch(i) => {
            assert(fs =~= fs.drop_last().push(i));
            assert(ds =~= ds.drop_last().push(i));
            lemma_subsequence_push_both(ds.drop_last(), fs.drop_last(), i);
        },
        _ => {},
    }
}

} // verus!
