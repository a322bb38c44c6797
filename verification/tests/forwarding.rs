use padmux::errors::FailReason;
use padmux::events::RawEvent;
use padmux::sink::{LogEntry, SinkLog};
use padmux::worker::{ForwardingWorker, SessionPhase, WorkerAction};
use padmux::READ_PAUSE_MS;

fn ev(code: u16, value: i32) -> RawEvent {
    RawEvent { kind: 3, code, value, sec: 7, usec: 125 }
}

/// Drive one worker session over a scripted source, relaying into the sink:
/// grab, then read/submit/pause cycles until the source script runs out and
/// the read fails. Returns the reason the session ended.
fn run_session(
    source: u64,
    grab_ok: bool,
    reads: &[Option<Vec<RawEvent>>],
    sink: &mut SinkLog,
) -> FailReason {
    let mut worker = ForwardingWorker::new();
    let mut reads = reads.iter().cloned();
    let mut action = worker.on_grab(grab_ok);
    loop {
        action = match action {
            WorkerAction::ReadBatch => {
                let batch = reads.next().unwrap_or(None);
                worker.on_read(batch)
            }
            WorkerAction::Submit(event) => {
                sink.submit(source, event);
                worker.on_submit(true)
            }
            WorkerAction::Pause => worker.on_pause_done(),
            WorkerAction::EndSession(reason) => return reason,
        };
    }
}

fn sink_entries(sink: &SinkLog) -> Vec<LogEntry> {
    (0..sink.len()).map(|i| sink.entry(i)).collect()
}

fn events_from(sink: &SinkLog, source: u64) -> Vec<RawEvent> {
    sink_entries(sink)
        .into_iter()
        .filter(|e| e.source == source)
        .map(|e| e.event)
        .collect()
}

#[test]
fn grab_failure_ends_the_session_only() {
    let mut worker = ForwardingWorker::new();
    assert_eq!(worker.phase, SessionPhase::Grabbing);
    let action = worker.on_grab(false);
    assert_eq!(action, WorkerAction::EndSession(FailReason::GrabRejected));
    assert_eq!(worker.phase, SessionPhase::Failed(FailReason::GrabRejected));
}

#[test]
fn events_relayed_one_by_one_in_read_order() {
    let mut worker = ForwardingWorker::new();
    assert_eq!(worker.on_grab(true), WorkerAction::ReadBatch);
    assert_eq!(worker.phase, SessionPhase::Streaming);

    let batch = vec![ev(0, 10), ev(1, -20), ev(2, 30)];
    assert_eq!(
        worker.on_read(Some(batch.clone())),
        WorkerAction::Submit(ev(0, 10))
    );
    assert_eq!(worker.on_submit(true), WorkerAction::Submit(ev(1, -20)));
    assert_eq!(worker.on_submit(true), WorkerAction::Submit(ev(2, 30)));
    // Batch drained: pause before the next read, then read again.
    assert_eq!(worker.on_submit(true), WorkerAction::Pause);
    assert_eq!(worker.on_pause_done(), WorkerAction::ReadBatch);
}

#[test]
fn empty_batch_still_pauses_before_next_read() {
    let mut worker = ForwardingWorker::new();
    worker.on_grab(true);
    assert_eq!(worker.on_read(Some(Vec::new())), WorkerAction::Pause);
    assert_eq!(worker.on_pause_done(), WorkerAction::ReadBatch);
    assert_eq!(READ_PAUSE_MS, 10);
}

#[test]
fn read_failure_ends_the_session() {
    let mut worker = ForwardingWorker::new();
    worker.on_grab(true);
    let action = worker.on_read(None);
    assert_eq!(action, WorkerAction::EndSession(FailReason::ReadFailed));
    assert_eq!(worker.phase, SessionPhase::Failed(FailReason::ReadFailed));
}

#[test]
fn submit_failure_ends_the_session() {
    let mut worker = ForwardingWorker::new();
    worker.on_grab(true);
    worker.on_read(Some(vec![ev(0, 1)]));
    let action = worker.on_submit(false);
    assert_eq!(action, WorkerAction::EndSession(FailReason::OutputWriteFailed));
    assert_eq!(worker.phase, SessionPhase::Failed(FailReason::OutputWriteFailed));
}

#[test]
fn session_output_preserves_single_source_read_order() {
    let mut sink = SinkLog::new();
    let reads = vec![
        Some(vec![ev(0, 1), ev(1, 2)]),
        Some(Vec::new()),
        Some(vec![ev(2, 3)]),
        None,
    ];
    let reason = run_session(1, true, &reads, &mut sink);
    assert_eq!(reason, FailReason::ReadFailed);
    assert_eq!(events_from(&sink, 1), vec![ev(0, 1), ev(1, 2), ev(2, 3)]);
}

#[test]
fn concurrent_submission_loses_and_duplicates_nothing() {
    // Stress: two sources submit n events each, interleaved in an uneven
    // pattern; the sink must hold exactly the union, each event once, and
    // each source's events in their original order.
    let n: usize = 200;
    let a: Vec<RawEvent> = (0..n).map(|i| ev(0, i as i32)).collect();
    let b: Vec<RawEvent> = (0..n).map(|i| ev(1, -(i as i32) - 1)).collect();

    let mut sink = SinkLog::new();
    let (mut ia, mut ib) = (0, 0);
    let mut turn = 0u32;
    while ia < n || ib < n {
        // Alternate unevenly: bursts of 1 from a, then up to 3 from b.
        if ia < n && turn % 2 == 0 {
            sink.submit(10, a[ia]);
            ia += 1;
        } else if ib < n {
            let burst = (turn % 3 + 1) as usize;
            for _ in 0..burst {
                if ib < n {
                    sink.submit(20, b[ib]);
                    ib += 1;
                }
            }
        } else if ia < n {
            sink.submit(10, a[ia]);
            ia += 1;
        }
        turn += 1;
    }

    // Exactly the union: nothing truncated, nothing duplicated.
    assert_eq!(sink.len(), 2 * n);
    assert_eq!(events_from(&sink, 10), a);
    assert_eq!(events_from(&sink, 20), b);
    // No entry from any other source.
    assert!(sink_entries(&sink)
        .iter()
        .all(|e| e.source == 10 || e.source == 20));
}

#[test]
fn batch_submission_matches_event_by_event_submission() {
    let batch = vec![ev(0, 1), ev(1, 2), ev(2, 3)];
    let mut one = SinkLog::new();
    one.submit_batch(5, &batch);
    let mut two = SinkLog::new();
    for e in &batch {
        two.submit(5, *e);
    }
    assert_eq!(sink_entries(&one), sink_entries(&two));
    assert_eq!(events_from(&one, 5), batch);
}
