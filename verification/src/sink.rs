//! The output sink's event log model.
//!
//! The output sink is the single gate through which every forwarding worker
//! writes to the synthetic output device; its writes are serialized, so what
//! the device receives is one sequence of events, each tagged here with the
//! source that submitted it. `SinkLog` is that sequence. The lemmas state
//! the sink's guarantees: a submission extends only its own source's
//! projection, so per-source order is preserved, and the projections of the
//! sources partition the log, so nothing is lost or duplicated in the merge.

use vstd::prelude::*;

use crate::events::RawEvent;

verus! {

/// One event as the sink received it, tagged with the submitting source.
#[derive(Clone, Copy, PartialEq, Eq, Structural, Debug)]
pub struct LogEntry {
    /// Identifier of the submitting source.
    pub source: u64,
    /// The event, verbatim.
    pub event: RawEvent,
}

/// The events submitted by `source`, in submission order.
pub open spec fn from_source(log: Seq<LogEntry>, source: u64) -> Seq<RawEvent>
    decreases log.len(),
{
    if log.len() == 0 {
        Seq::empty()
    } else {
        let rest = from_source(log.drop_last(), source);
        if log.last().source == source {
            rest.push(log.last().event)
        } else {
            rest
        }
    }
}

/// `events`, each tagged with `source`.
pub open spec fn tagged(source: u64, events: Seq<RawEvent>) -> Seq<LogEntry> {
    events.map_values(|e: RawEvent| LogEntry { source, event: e })
}

/// Every entry of `log` was submitted by one of `a` and `b`.
pub open spec fn only_sources(log: Seq<LogEntry>, a: u64, b: u64) -> bool {
    forall|i: int| 0 <= i < log.len() ==> (#[trigger] log[i]).source == a || log[i].source == b
}

/// In-order record of everything the output sink has received.
pub struct SinkLog {
    entries: Vec<LogEntry>,
}

impl View for SinkLog {
    type V = Seq<LogEntry>;

    closed spec fn view(&self) -> Seq<LogEntry> {
        self.entries@
    }
}

impl SinkLog {
    /// A sink that has received nothing yet.
    pub fn new() -> (s: Self)
        ensures
            s@ == Seq::<LogEntry>::empty(),
    {
        SinkLog { entries: Vec::new() }
    }

    /// One submission: the log grows by exactly this event, tagged with its
    /// source, at the end — nothing else changes.
    pub fn submit(&mut self, source: u64, event: RawEvent)
        ensures
            final(self)@ == old(self)@.push(LogEntry { source, event }),
    {
        self.entries.push(LogEntry { source, event });
    }

    /// A batch submitted by one source, one event at a time, in batch order.
    pub fn submit_batch(&mut self, source: u64, batch: &Vec<RawEvent>)
        ensures
            final(self)@ == old(self)@ + tagged(source, batch@),
    {
        let mut i: usize = 0;
        while i < batch.len()
            invariant
                i <= batch@.len(),
                self@ == old(self)@ + tagged(source, batch@.take(i as int)),
            decreases batch@.len() - i,
        {
            let e = batch[i];
            self.submit(source, e);
            proof {
                assert(tagged(source, batch@.take(i + 1)) =~= tagged(
                    source,
                    batch@.take(i as int),
                ).push(LogEntry { source, event: batch@[i as int] }));
                assert(self@ =~= old(self)@ + tagged(source, batch@.take(i + 1)));
            }
            i += 1;
        }
        proof {
            assert(batch@.take(batch@.len() as int) =~= batch@);
        }
    }

    /// How many events the sink has received.
    pub fn len(&self) -> (n: usize)
        ensures
            n == self@.len(),
    {
        self.entries.len()
    }

    /// The `i`-th received event with its source tag.
    pub fn entry(&self, i: usize) -> (e: LogEntry)
        requires
            i < self@.len(),
        ensures
            e == self@[i as int],
    {
        self.entries[i]
    }
}

/// Submitting one event extends the submitting source's projection by exactly
/// that event at the end, and leaves every other source's projection
/// untouched: per-source order is preserved across the shared sink.
pub proof fn lemma_submit_projects(log: Seq<LogEntry>, source: u64, event: RawEvent)
    ensures
        from_source(log.push(LogEntry { source, event }), source) == from_source(
            log,
            source,
        ).push(event),
        forall|other: u64|
            other != source ==> #[trigger] from_source(log.push(LogEntry { source, event }), other)
                == from_source(log, other),
{
    let entry = LogEntry { source, event };
    assert(log.push(entry).drop_last() =~= log);
}

/// A whole batch submitted by one source lands at the end of that source's
/// projection, in batch order, and leaves every other source's projection
/// untouched: what one source reads in order, the sink passes on in order,
/// however submissions from other sources interleave with it.
pub proof fn lemma_batch_projects(log: Seq<LogEntry>, source: u64, batch: Seq<RawEvent>)
    ensures
        from_source(log + tagged(source, batch), source) == from_source(log, source) + batch,
        forall|other: u64|
            other != source ==> #[trigger] from_source(log + tagged(source, batch), other)
                == from_source(log, other),
    decreases batch.len(),
{
    if batch.len() == 0 {
        assert(log + tagged(source, batch) =~= log);
        assert(from_source(log, source) + batch =~= from_source(log, source));
    } else {
        let head = batch.drop_last();
        let last = batch.last();
        lemma_batch_projects(log, source, head);
        assert(log + tagged(source, batch) =~= (log + tagged(source, head)).push(
            LogEntry { source, event: last },
        ));
        lemma_submit_projects(log + tagged(source, head), source, last);
        assert(from_source(log, source) + batch =~= (from_source(log, source) + head).push(last));
    }
}

/// When every entry came from source `a` or source `b`, the two projections
/// partition the log: their lengths add up to the log's length, so no
/// submission is dropped and none is duplicated by the merge.
pub proof fn lemma_projections_partition(log: Seq<LogEntry>, a: u64, b: u64)
    requires
        a != b,
        only_sources(log, a, b),
    ensures
        from_source(log, a).len() + from_source(log, b).len() == log.len(),
    decreases log.len(),
{
    if log.len() > 0 {
        assert(only_sources(log.drop_last(), a, b));
        lemma_projections_partition(log.drop_last(), a, b);
    }
}

/// `log` is some merge of `sa` submitted by `a` and `sb` submitted by `b`:
/// each entry is the next event of one of the two, in that source's order.
/// Every run of serialized submits through the sink's gate leaves a log of
/// this shape, whichever thread wins each acquisition.
pub open spec fn is_interleaving(
    log: Seq<LogEntry>,
    a: u64,
    sa: Seq<RawEvent>,
    b: u64,
    sb: Seq<RawEvent>,
) -> bool
    decreases log.len(),
{
    if log.len() == 0 {
        sa.len() == 0 && sb.len() == 0
    } else {
        let e = log.last();
        (e.source == a && sa.len() > 0 && e.event == sa.last() && is_interleaving(
            log.drop_last(),
            a,
            sa.drop_last(),
            b,
            sb,
        )) || (e.source == b && sb.len() > 0 && e.event == sb.last() && is_interleaving(
            log.drop_last(),
            a,
            sa,
            b,
            sb.drop_last(),
        ))
    }
}

/// Under concurrent submission from two sources, however their submissions
/// interleave, the sink receives exactly the union — each source's events
/// all there, each exactly once, unchanged and in that source's own order:
/// projecting the merged log by source gives back precisely what each
/// source submitted.
pub proof fn lemma_interleaving_loses_nothing(
    log: Seq<LogEntry>,
    a: u64,
    sa: Seq<RawEvent>,
    b: u64,
    sb: Seq<RawEvent>,
)
    requires
        a != b,
        is_interleaving(log, a, sa, b, sb),
    ensures
        from_source(log, a) == sa,
        from_source(log, b) == sb,
        log.len() == sa.len() + sb.len(),
    decreases log.len(),
{
    if log.len() == 0 {
        assert(from_source(log, a) =~= sa);
        assert(from_source(log, b) =~= sb);
    } else {
        let e = log.last();
        if e.source == a && sa.len() > 0 && e.event == sa.last() && is_interleaving(
            log.drop_last(),
            a,
            sa.drop_last(),
            b,
            sb,
        ) {
            lemma_interleaving_loses_nothing(log.drop_last(), a, sa.drop_last(), b, sb);
            assert(from_source(log, a) =~= sa);
        } else {
            lemma_interleaving_loses_nothing(log.drop_last(), a, sa, b, sb.drop_last());
            assert(from_source(log, b) =~= sb);
        }
    }
}

/// The `i`-th event of a source's projection is the event of the `j`-th log
/// entry for some `j`, and the projection keeps log order: it is a
/// subsequence of the log restricted to that source.
pub proof fn lemma_projection_sound(log: Seq<LogEntry>, source: u64, i: int)
    requires
        0 <= i < from_source(log, source).len(),
    ensures
        exists|j: int|
            0 <= j < log.len() && (#[trigger] log[j]).source == source && log[j].event
                == from_source(log, source)[i],
    decreases log.len(),
{
    if log.len() > 0 {
        let rest = from_source(log.drop_last(), source);
        if log.last().source == source && i == rest.len() {
            assert(log[log.len() - 1].source == source);
        } else {
            lemma_projection_sound(log.drop_last(), source, i);
            let j = choose|j: int|
                0 <= j < log.drop_last().len() && (#[trigger] log.drop_last()[j]).source == source
                    && log.drop_last()[j].event == rest[i];
            assert(log[j].source == source && log[j].event == from_source(log, source)[i]);
        }
    }
}

} // verus!
