use robdex_agent_runtime::stream::{greeting_watermark, stream_after_greeting, stream_farewell, stream_greeting, StreamFrame};
use robdex_agent_runtime::stream::{advance_watermark, stream_after_check, stream_after_failed_query, stream_open, StreamStep};

#[test]
fn missing_after_requires_resync() {
    match stream_open(None, 42) {
        StreamStep::Resync { watermark, reason } => {
            assert_eq!(watermark, 42);
            assert_eq!(reason, "missing after watermark; hydrate a snapshot before opening the delta stream");
        }
        other => panic!("{other:?}"),
    }
    assert!(matches!(stream_open(Some(7), 42), StreamStep::CheckContinuation { after: 7 }));
}

#[test]
fn stale_after_requires_resync() {
    assert!(matches!(stream_after_check(Some(true), 7, 42), StreamStep::Stream { after: 7 }));
    for answer in [Some(false), None] {
        match stream_after_check(answer, 7, 42) {
            StreamStep::Resync { watermark, reason } => {
                assert_eq!(watermark, 42);
                assert_eq!(reason, "requested after watermark is stale, missing, or cannot be continued safely");
            }
            other => panic!("{other:?}"),
        }
    }
}

#[test]
fn failed_delta_query_resyncs_at_last_watermark() {
    match stream_after_failed_query(9, "connection reset") {
        StreamStep::Resync { watermark, reason } => {
            assert_eq!(watermark, 9);
            assert_eq!(reason, "delta query failed: connection reset");
        }
        other => panic!("{other:?}"),
    }
}

#[test]
fn watermark_follows_delivered_deltas() {
    assert_eq!(advance_watermark(5, &vec![]), 5);
    assert_eq!(advance_watermark(5, &vec![6, 8, 11]), 11);
    let first = advance_watermark(5, &vec![6, 8]);
    assert_eq!(advance_watermark(first, &vec![11]), advance_watermark(5, &vec![6, 8, 11]));
}

#[test]
fn greeting_and_farewell_frames() {
    assert_eq!(greeting_watermark(Some(12)), 12);
    assert_eq!(greeting_watermark(None), 0);
    match stream_greeting(12, "robdex-agent-runtime/0.1.0") {
        StreamFrame::Hello { watermark, runtime_identity } => {
            assert_eq!(watermark, 12);
            assert_eq!(runtime_identity, "robdex-agent-runtime/0.1.0");
        }
        other => panic!("{other:?}"),
    }
    assert!(matches!(stream_after_greeting(false, Some(3), 12), StreamStep::End));
    assert!(matches!(stream_after_greeting(true, Some(3), 12), StreamStep::CheckContinuation { after: 3 }));
    assert!(matches!(stream_after_greeting(true, None, 12), StreamStep::Resync { watermark: 12, .. }));
    let farewell = stream_farewell("id");
    assert_eq!(farewell.len(), 2);
    assert!(matches!(&farewell[0], StreamFrame::ServerShutdown { runtime_identity } if runtime_identity == "id"));
    assert!(matches!(farewell[1], StreamFrame::Close));
}
