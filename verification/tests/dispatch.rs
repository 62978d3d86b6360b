//! Tests for the dispatch loop's decision logic.

use kether::dispatch::dispatch_step;
use kether::dispatch::evaluate_dispatch;
use kether::dispatch::DispatchOutcome;
use kether::dispatch::LoopDirective;
use kether::dispatch::StreamPull;
use kether::dispatch::ECHO_WAIT_TIMEOUT_SECS;
use kether::dispatch::NOTIFICATION_THROTTLE_MS;
use kether::dispatch::STREAM_ERROR_BACKOFF_MS;

#[test]
fn step_continues_only_on_handled_items() {
    assert_eq!(
        dispatch_step(&StreamPull::Delivered { handler_ok: true }),
        LoopDirective::Continue,
    );
    assert_eq!(
        dispatch_step(&StreamPull::Delivered { handler_ok: false }),
        LoopDirective::StopHandlerFailure,
    );
    assert_eq!(dispatch_step(&StreamPull::Faulted), LoopDirective::BackoffThenStopStreamFailure);
    assert_eq!(dispatch_step(&StreamPull::Ended), LoopDirective::StopSuccess);
}

#[test]
fn a_clean_stream_is_handled_to_completion() {
    let pulls = vec![
        StreamPull::Delivered { handler_ok: true },
        StreamPull::Delivered { handler_ok: true },
        StreamPull::Ended,
    ];
    let summary = evaluate_dispatch(&pulls);
    assert_eq!(summary.handled, 2);
    assert_eq!(summary.outcome, DispatchOutcome::Completed);
}

#[test]
fn a_handler_failure_stops_the_loop_at_once() {
    let pulls = vec![
        StreamPull::Delivered { handler_ok: true },
        StreamPull::Delivered { handler_ok: false },
        StreamPull::Delivered { handler_ok: true },
    ];
    let summary = evaluate_dispatch(&pulls);
    assert_eq!(summary.handled, 1);
    assert_eq!(summary.outcome, DispatchOutcome::HandlerFailed);
}

#[test]
fn a_stream_fault_surfaces_after_the_items_before_it() {
    let pulls = vec![
        StreamPull::Delivered { handler_ok: true },
        StreamPull::Delivered { handler_ok: true },
        StreamPull::Faulted,
        StreamPull::Delivered { handler_ok: true },
    ];
    let summary = evaluate_dispatch(&pulls);
    assert_eq!(summary.handled, 2);
    assert_eq!(summary.outcome, DispatchOutcome::StreamFailed);
}

#[test]
fn an_exhausted_pull_sequence_counts_as_completion() {
    let summary = evaluate_dispatch(&vec![]);
    assert_eq!(summary.handled, 0);
    assert_eq!(summary.outcome, DispatchOutcome::Completed);
}

#[test]
fn loop_timing_constants_match_the_design() {
    assert_eq!(NOTIFICATION_THROTTLE_MS, 25);
    assert_eq!(STREAM_ERROR_BACKOFF_MS, 250);
    assert_eq!(ECHO_WAIT_TIMEOUT_SECS, 5);
}
