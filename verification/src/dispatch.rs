//! The decision logic of the notification dispatch loop: a long-lived
//! consumer pulls inbound items in stream order, hands each to a handler, and
//! stops on the first handler failure or stream fault.  The loop never
//! reconnects by itself; after a stream fault it backs off once and surfaces
//! the fault to whoever started it.

use vstd::prelude::*;

verus! {

/// The minimum spacing between two pulled items, in milliseconds.
pub const NOTIFICATION_THROTTLE_MS: u64 = 25;

/// The single backoff slept after a stream fault, in milliseconds.
pub const STREAM_ERROR_BACKOFF_MS: u64 = 250;

/// The length of the echo correlation window, in seconds.
pub const ECHO_WAIT_TIMEOUT_SECS: u64 = 5;

/// One pull from the notification stream, as the loop's decisions see it.
#[derive(Debug, Clone, Copy, PartialEq, Eq, Structural)]
pub enum StreamPull {
    /// An item arrived and the handler reported the given verdict.
    Delivered { handler_ok: bool },
    /// The stream itself failed.
    Faulted,
    /// The stream ended.
    Ended,
}

/// How the loop reacts to one pull.
#[derive(Debug, Clone, Copy, PartialEq, Eq, Structural)]
pub enum LoopDirective {
    /// Keep pulling.
    Continue,
    /// The stream ended: stop and report success.
    StopSuccess,
    /// The handler failed: stop at once and propagate its failure.
    StopHandlerFailure,
    /// The stream failed: sleep the fixed backoff once, then stop and surface
    /// the stream fault.
    BackoffThenStopStreamFailure,
}

/// How a finished loop reports back.
#[derive(Debug, Clone, Copy, PartialEq, Eq, Structural)]
pub enum DispatchOutcome {
    /// The stream ended; every item was handled.
    Completed,
    /// A handler failed; its failure propagates.
    HandlerFailed,
    /// The stream failed; the fault surfaces after the backoff.
    StreamFailed,
}

/// A finished loop: how many items were handled, and why it stopped.
#[derive(Debug, Clone, Copy, PartialEq, Eq, Structural)]
pub struct DispatchSummary {
    /// The number of items handled successfully, each before the next was
    /// considered.
    pub handled: usize,
    /// Why the loop stopped.
    pub outcome: DispatchOutcome,
}

/// The loop's reaction to one pull.
pub open spec fn spec_dispatch_step(pull: StreamPull) -> LoopDirective {
    match pull {
        StreamPull::Delivered { handler_ok } => if handler_ok {
            LoopDirective::Continue
        } else {
            LoopDirective::StopHandlerFailure
        },
        StreamPull::Faulted => LoopDirective::BackoffThenStopStreamFailure,
        StreamPull::Ended => LoopDirective::StopSuccess,
    }
}

/// Decide the loop's reaction to one pull: continue only on a handled item,
/// stop on everything else — with the backoff owed only to a stream fault.
pub fn dispatch_step(pull: &StreamPull) -> (r: LoopDirective)
    ensures
        r == spec_dispatch_step(*pull),
{
    match pull {
        StreamPull::Delivered { handler_ok } => if *handler_ok {
            LoopDirective::Continue
        } else {
            LoopDirective::StopHandlerFailure
        },
        StreamPull::Faulted => LoopDirective::BackoffThenStopStreamFailure,
        StreamPull::Ended => LoopDirective::StopSuccess,
    }
}

/// Evaluate a whole run of the loop against the pulls it would observe, in
/// stream order.  Exactly the items before the first stopping pull are
/// handled — item N's handler finishes before item N+1 is considered — and
/// the outcome names the stopping pull: the end of the stream or an exhausted
/// pull sequence completes the run, a handler failure or a stream fault ends
/// it early.
pub fn evaluate_dispatch(pulls: &Vec<StreamPull>) -> (r: DispatchSummary)
    ensures
        r.handled <= pulls@.len(),
        forall|j: int|
            0 <= j < r.handled ==> pulls@[j] == (StreamPull::Delivered { handler_ok: true }),
        r.outcome == DispatchOutcome::Completed ==> r.handled == pulls@.len() || pulls@[
            r.handled as int
        ] == StreamPull::Ended,
        r.outcome == DispatchOutcome::HandlerFailed ==> r.handled < pulls@.len() && pulls@[
            r.handled as int
        ] == (StreamPull::Delivered { handler_ok: false }),
        r.outcome == DispatchOutcome::StreamFailed ==> r.handled < pulls@.len() && pulls@[
            r.handled as int
        ] == StreamPull::Faulted,
{
    let n = pulls.len();
    let mut i: usize = 0;
    while i < n
        invariant
            0 <= i <= n,
            n == pulls@.len(),
            forall|j: int|
                0 <= j < i ==> pulls@[j] == (StreamPull::Delivered { handler_ok: true }),
        decreases n - i,
    {
        let directive = dispatch_step(&pulls[i]);
        match directive {
            LoopDirective::Continue => {
                i = i + 1;
            },
            LoopDirective::StopSuccess => {
                return DispatchSummary { handled: i, outcome: DispatchOutcome::Completed };
            },
            LoopDirective::StopHandlerFailure => {
                return DispatchSummary { handled: i, outcome: DispatchOutcome::HandlerFailed };
            },
            LoopDirective::BackoffThenStopStreamFailure => {
                return DispatchSummary { handled: i, outcome: DispatchOutcome::StreamFailed };
            },
        }
    }
    DispatchSummary { handled: n, outcome: DispatchOutcome::Completed }
}

} // verus!
