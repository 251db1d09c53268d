use robdex_agent_runtime::worker::{worker_start, worker_step, StopReason, SubmittedInput, WorkerCommand, WorkerEvent, WorkerPhase};

fn input(disposition: &str, target: Option<u128>) -> SubmittedInput {
    SubmittedInput { id: 11, disposition: disposition.to_string(), target_turn_id: target, content: "hi".to_string() }
}

#[test]
fn empty_queue_drains() {
    let (phase, command) = worker_start();
    assert!(matches!(phase, WorkerPhase::AwaitingInput));
    assert!(matches!(command, WorkerCommand::FetchNextInput));
    let (phase, command) = worker_step(phase, true, WorkerEvent::NextInput(None));
    assert!(matches!(phase, WorkerPhase::Stopped));
    assert!(matches!(command, WorkerCommand::Stop(StopReason::Drained)));
}

#[test]
fn queue_read_failure_stops_with_drain_failed() {
    let (phase, command) = worker_step(WorkerPhase::AwaitingInput, false, WorkerEvent::NextInputFailed("pool closed".to_string()));
    assert!(matches!(phase, WorkerPhase::Stopped));
    match command {
        WorkerCommand::Stop(StopReason::DrainFailed { error }) => assert_eq!(error, "pool closed"),
        other => panic!("{other:?}"),
    }
}

#[test]
fn archived_session_abandons_inputs() {
    let (phase, command) = worker_step(WorkerPhase::AwaitingInput, false, WorkerEvent::NextInput(Some(input("queued", None))));
    assert!(matches!(command, WorkerCommand::CheckNotArchived));
    let (phase, command) = worker_step(phase, false, WorkerEvent::ArchiveCheck(Err("session is archived".to_string())));
    assert!(matches!(phase, WorkerPhase::Stopped));
    match command {
        WorkerCommand::Stop(StopReason::Abandoned { input_id, reason }) => {
            assert_eq!(input_id, 11);
            assert_eq!(reason, "session is archived");
        }
        other => panic!("{other:?}"),
    }
}

#[test]
fn plain_input_is_dispatched_then_next_fetched() {
    let (phase, _) = worker_step(WorkerPhase::AwaitingInput, true, WorkerEvent::NextInput(Some(input("queued", None))));
    let (phase, command) = worker_step(phase, true, WorkerEvent::ArchiveCheck(Ok(())));
    match &command {
        WorkerCommand::Dispatch(d) => assert_eq!((d.id, d.content.as_str()), (11, "hi")),
        other => panic!("{other:?}"),
    }
    let (phase, command) = worker_step(phase, true, WorkerEvent::DispatchResult(Ok(5)));
    assert!(matches!(phase, WorkerPhase::AwaitingInput));
    assert!(matches!(command, WorkerCommand::FetchNextInput));
}

#[test]
fn steering_needs_a_model_client() {
    let steering = input("active_turn_steering", Some(99));
    let (phase, _) = worker_step(WorkerPhase::AwaitingInput, false, WorkerEvent::NextInput(Some(steering.clone())));
    let (_, command) = worker_step(phase, false, WorkerEvent::ArchiveCheck(Ok(())));
    assert!(matches!(command, WorkerCommand::Dispatch(_)));

    let (phase, _) = worker_step(WorkerPhase::AwaitingInput, true, WorkerEvent::NextInput(Some(steering)));
    let (phase, command) = worker_step(phase, true, WorkerEvent::ArchiveCheck(Ok(())));
    assert!(matches!(command, WorkerCommand::ContinueSteering { target_turn_id: 99 }));
    let (_, again) = worker_step(phase.clone(), true, WorkerEvent::SteeringResult(Ok(true)));
    assert!(matches!(again, WorkerCommand::FetchNextInput));
    let (_, dispatch) = worker_step(phase.clone(), true, WorkerEvent::SteeringResult(Ok(false)));
    assert!(matches!(dispatch, WorkerCommand::Dispatch(_)));
    let (stopped, failed) = worker_step(phase, true, WorkerEvent::SteeringResult(Err("turn gone".to_string())));
    assert!(matches!(stopped, WorkerPhase::Stopped));
    assert!(matches!(failed, WorkerCommand::Stop(StopReason::ApplyFailed { input_id: 11, .. })));
}

#[test]
fn dispatch_failure_marks_input_failed() {
    let (phase, command) = worker_step(
        WorkerPhase::AwaitingDispatch(input("queued", None)),
        true,
        WorkerEvent::DispatchResult(Err("model forced failure".to_string())),
    );
    assert!(matches!(phase, WorkerPhase::Stopped));
    match command {
        WorkerCommand::Stop(StopReason::ApplyFailed { input_id, error }) => {
            assert_eq!(input_id, 11);
            assert_eq!(error, "model forced failure");
        }
        other => panic!("{other:?}"),
    }
}

#[test]
fn queued_inputs_are_applied_one_at_a_time_in_order() {
    let (mut phase, mut command) = worker_start();
    let mut sent = Vec::new();
    let mut queue: Vec<SubmittedInput> = (1..=3)
        .map(|k| SubmittedInput { id: k, disposition: "queued".to_string(), target_turn_id: None, content: format!("m{k}") })
        .collect();
    queue.reverse();
    let mut in_flight = 0;
    loop {
        let event = match &command {
            WorkerCommand::FetchNextInput => WorkerEvent::NextInput(queue.pop()),
            WorkerCommand::CheckNotArchived => WorkerEvent::ArchiveCheck(Ok(())),
            WorkerCommand::Dispatch(input) => {
                in_flight += 1;
                assert_eq!(in_flight, 1, "two inputs applied at once");
                sent.push(input.id);
                in_flight -= 1;
                WorkerEvent::DispatchResult(Ok(100 + input.id))
            }
            WorkerCommand::Stop(StopReason::Drained) => break,
            other => panic!("{other:?}"),
        };
        let next = worker_step(phase, false, event);
        phase = next.0;
        command = next.1;
    }
    assert_eq!(sent, vec![1, 2, 3]);
}
