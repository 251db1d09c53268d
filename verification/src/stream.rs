use vstd::prelude::*;

verus! {

/// What the state stream does once it has greeted its client.
#[derive(Debug)]
pub enum StreamStep {
    /// Tell the client to hydrate a fresh snapshot, at this watermark and for
    /// this reason, then close the stream.
    Resync { watermark: i64, reason: String },
    /// Ask the store whether the event stream can continue after this watermark.
    CheckContinuation { after: i64 },
    /// Stream deltas after this watermark.
    Stream { after: i64 },
    /// End the stream without a further frame: the client is gone.
    End,
}

/// A frame that the state stream sends of its own accord.
#[derive(Debug)]
pub enum StreamFrame {
    /// The greeting: the current watermark and who is answering.
    Hello { watermark: i64, runtime_identity: String },
    /// The server is shutting down.
    ServerShutdown { runtime_identity: String },
    /// The closing frame.
    Close,
}

/// The watermark that the greeting reports: that of the current snapshot, or
/// zero when the snapshot could not be built.
pub fn greeting_watermark(snapshot_watermark: Option<i64>) -> (w: i64)
    ensures
        w == match snapshot_watermark {
            Some(v) => v,
            None => 0,
        },
{
    match snapshot_watermark {
        Some(v) => v,
        None => 0,
    }
}

/// The greeting that opens every stream.
pub fn stream_greeting(watermark: i64, runtime_identity: &str) -> (f: StreamFrame)
    ensures
        f matches StreamFrame::Hello { watermark: w, runtime_identity: id } && w == watermark
            && id@ == runtime_identity@,
{
    StreamFrame::Hello { watermark, runtime_identity: String::from_str(runtime_identity) }
}

/// Opens the stream once the greeting was sent, or not: a client that the
/// greeting did not reach is gone and the stream ends; otherwise see [`stream_open`].
pub fn stream_after_greeting(greeted: bool, after: Option<i64>, current: i64) -> (s: StreamStep)
    ensures
        !greeted ==> s is End,
        greeted && after is Some ==> s == (StreamStep::CheckContinuation { after: after->0 }),
        greeted && after is None ==> (s matches StreamStep::Resync { watermark, reason }
            && watermark == current && reason@ == missing_after_reason()),
{
    if greeted {
        stream_open(after, current)
    } else {
        StreamStep::End
    }
}

/// What the stream sends when the server shuts down, before it returns: the
/// shutdown notice, then the closing frame.
pub fn stream_farewell(runtime_identity: &str) -> (frames: Vec<StreamFrame>)
    ensures
        frames@.len() == 2,
        frames@[0] matches StreamFrame::ServerShutdown { runtime_identity: id } && id@ == runtime_identity@,
        frames@[1] is Close,
{
    let mut frames: Vec<StreamFrame> = Vec::new();
    frames.push(StreamFrame::ServerShutdown { runtime_identity: String::from_str(runtime_identity) });
    frames.push(StreamFrame::Close);
    frames
}

/// The reason given when the client did not say where it stands.
pub open spec fn missing_after_reason() -> Seq<char> {
    "missing after watermark; hydrate a snapshot before opening the delta stream"@
}

/// The reason given when the stream cannot continue where the client stands.
pub open spec fn stale_after_reason() -> Seq<char> {
    "requested after watermark is stale, missing, or cannot be continued safely"@
}

/// Opens the stream: a client that gave no `after` watermark must resync at
/// the current one; otherwise the continuation is checked.
pub fn stream_open(after: Option<i64>, current: i64) -> (s: StreamStep)
    ensures
        after matches Some(a) ==> s == (StreamStep::CheckContinuation { after: a }),
        after is None ==> (s matches StreamStep::Resync { watermark, reason }
            && watermark == current && reason@ == missing_after_reason()),
{
    match after {
        Some(a) => StreamStep::CheckContinuation { after: a },
        None => StreamStep::Resync {
            watermark: current,
            reason: String::from_str("missing after watermark; hydrate a snapshot before opening the delta stream"),
        },
    }
}

/// Answers the continuation check: the stream goes on only when the store
/// said it can (`Some(true)`); a refusal or a failed check (`None`) means resync.
pub fn stream_after_check(can_continue: Option<bool>, after: i64, current: i64) -> (s: StreamStep)
    ensures
        can_continue == Some(true) ==> s == (StreamStep::Stream { after }),
        can_continue != Some(true) ==> (s matches StreamStep::Resync { watermark, reason }
            && watermark == current && reason@ == stale_after_reason()),
{
    match can_continue {
        Some(true) => StreamStep::Stream { after },
        _ => StreamStep::Resync {
            watermark: current,
            reason: String::from_str("requested after watermark is stale, missing, or cannot be continued safely"),
        },
    }
}

/// A failed delta query ends the stream with a resync at the last delivered watermark.
pub fn stream_after_failed_query(last: i64, error: &str) -> (s: StreamStep)
    ensures
        (s matches StreamStep::Resync { watermark, reason } && watermark == last
            && reason@ == "delta query failed: "@ + error@),
{
    StreamStep::Resync { watermark: last, reason: String::from_str("delta query failed: ").concat(error) }
}

/// The watermark after a batch of deltas was delivered: that of the last
/// delta, or the previous one when the batch was empty.
pub open spec fn watermark_after(last: i64, delivered: Seq<i64>) -> i64 {
    if delivered.len() == 0 {
        last
    } else {
        delivered.last()
    }
}

/// See [`watermark_after`].
pub fn advance_watermark(last: i64, delivered: &Vec<i64>) -> (w: i64)
    ensures
        w == watermark_after(last, delivered@),
{
    let mut w = last;
    let mut i: usize = 0;
    while i < delivered.len()
        invariant
            i <= delivered.len(),
            w == watermark_after(last, delivered@.take(i as int)),
        decreases delivered.len() - i,
    {
        w = delivered[i];
        proof {
            assert(delivered@.take(i + 1).last() == delivered@[i as int]);
        }
        i = i + 1;
    }
    proof {
        assert(delivered@.take(delivered@.len() as int) =~= delivered@);
    }
    w
}

/// The deltas of a stream are delivered in batches: the watermark after two
/// batches is the one after their concatenation.
pub proof fn law_batches_compose(last: i64, first: Seq<i64>, second: Seq<i64>)
    ensures
        watermark_after(watermark_after(last, first), second) == watermark_after(last, first + second),
{
    if second.len() > 0 {
        assert((first + second).last() == second.last());
    }
}

} // verus!
