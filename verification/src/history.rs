//! What holds of a worker over a whole history of events: nothing received is
//! lost or reordered, no batch outgrows the entry limit, a duplicate batch
//! leaves without a retry, and a retried batch is written once.

use crate::worker::{deadline_after, Timed, WorkerAction, WorkerEvent, WorkerState, RETRY_BACKOFF};
use vstd::prelude::*;

verus! {

/// The state a worker reaches from `start` after the events of `trace`.
pub open spec fn run<U>(start: WorkerState<U>, trace: Seq<Timed<U>>) -> WorkerState<U>
    decreases trace.len(),
{
    if trace.len() == 0 {
        start
    } else {
        run(start, trace.drop_last()).step(trace.last().event, trace.last().now)
    }
}

/// Whether each event of `trace` answers the action the worker had asked for
/// when the event was reported.
pub open spec fn admissible<U>(start: WorkerState<U>, trace: Seq<Timed<U>>) -> bool
    decreases trace.len(),
{
    trace.len() == 0 || (admissible(start, trace.drop_last()) && run(
        start,
        trace.drop_last(),
    ).accepts(trace.last().event))
}

/// The records that the queue delivered during `trace`, in order of arrival.
pub open spec fn received<U>(trace: Seq<Timed<U>>) -> Seq<U>
    decreases trace.len(),
{
    if trace.len() == 0 {
        Seq::empty()
    } else {
        match trace.last().event {
            WorkerEvent::Record(record) => received(trace.drop_last()).push(record),
            _ => received(trace.drop_last()),
        }
    }
}

/// The batches that were handed to the database during `trace`, one for each
/// answer the database gave.
pub open spec fn attempts<U>(start: WorkerState<U>, trace: Seq<Timed<U>>) -> Seq<Seq<U>>
    decreases trace.len(),
{
    if trace.len() == 0 {
        Seq::empty()
    } else if trace.last().event.from_database() {
        attempts(start, trace.drop_last()).push(run(start, trace.drop_last()).batch)
    } else {
        attempts(start, trace.drop_last())
    }
}

/// The records that the database accepted during `trace`, in the order in
/// which they were written.
pub open spec fn written<U>(start: WorkerState<U>, trace: Seq<Timed<U>>) -> Seq<U>
    decreases trace.len(),
{
    if trace.len() == 0 {
        Seq::empty()
    } else if trace.last().event is Written {
        written(start, trace.drop_last()) + run(start, trace.drop_last()).batch
    } else {
        written(start, trace.drop_last())
    }
}

/// The records that left the worker during `trace`, written or discarded as
/// duplicates, in the order in which they left.
pub open spec fn resolved<U>(start: WorkerState<U>, trace: Seq<Timed<U>>) -> Seq<U>
    decreases trace.len(),
{
    if trace.len() == 0 {
        Seq::empty()
    } else if trace.last().event is Written || trace.last().event is Duplicate {
        resolved(start, trace.drop_last()) + run(start, trace.drop_last()).batch
    } else {
        resolved(start, trace.drop_last())
    }
}

/// Whether the database never reported a duplicate during `trace`.
pub open spec fn free_of_duplicates<U>(trace: Seq<Timed<U>>) -> bool {
    forall|i: int| 0 <= i < trace.len() ==> !(#[trigger] trace[i].event is Duplicate)
}

/// Whether every event of `trace` is a failed insert.
pub open spec fn all_failed<U>(trace: Seq<Timed<U>>) -> bool {
    forall|i: int| 0 <= i < trace.len() ==> #[trigger] trace[i].event is Failed
}

/// An event that answers the owed action leaves the worker well formed.
pub proof fn lemma_step_keeps_wf<U>(state: WorkerState<U>, event: WorkerEvent<U>, now: u64)
    requires
        state.wf(),
        state.accepts(event),
    ensures
        state.step(event, now).wf(),
        state.step(event, now).entry_limit == state.entry_limit,
        state.step(event, now).timer_interval == state.timer_interval,
{
}

/// A worker stays well formed, and keeps its configuration, through every
/// admissible history.
pub proof fn lemma_run_keeps_wf<U>(start: WorkerState<U>, trace: Seq<Timed<U>>)
    requires
        start.wf(),
        admissible(start, trace),
    ensures
        run(start, trace).wf(),
        run(start, trace).entry_limit == start.entry_limit,
        run(start, trace).timer_interval == start.timer_interval,
    decreases trace.len(),
{
    if trace.len() > 0 {
        lemma_run_keeps_wf(start, trace.drop_last());
        lemma_step_keeps_wf(run(start, trace.drop_last()), trace.last().event, trace.last().now);
    }
}

/// Every record is accounted for, in order: what the worker held at the start
/// followed by what it received is what has left it followed by what it still
/// holds.
pub proof fn lemma_records_accounted<U>(start: WorkerState<U>, trace: Seq<Timed<U>>)
    requires
        start.wf(),
        admissible(start, trace),
    ensures
        start.batch + received(trace) == resolved(start, trace) + run(start, trace).batch,
    decreases trace.len(),
{
    if trace.len() == 0 {
        assert(start.batch + received(trace) =~= resolved(start, trace) + run(start, trace).batch);
    } else {
        let prefix = trace.drop_last();
        let before = run(start, prefix);
        lemma_records_accounted(start, prefix);
        lemma_run_keeps_wf(start, prefix);
        let after = run(start, trace);
        assert(after == before.step(trace.last().event, trace.last().now));
        match trace.last().event {
            WorkerEvent::Record(record) => {
                assert(after.batch == before.batch.push(record));
                assert(start.batch + received(prefix).push(record) =~= (start.batch + received(
                    prefix,
                )).push(record));
                assert(resolved(start, prefix) + before.batch.push(record) =~= (resolved(
                    start,
                    prefix,
                ) + before.batch).push(record));
            },
            WorkerEvent::Timeout => {
                assert(after.batch =~= before.batch);
            },
            WorkerEvent::Disconnected => {
                assert(after.batch =~= before.batch);
            },
            WorkerEvent::Written => {
                assert(after.batch =~= Seq::<U>::empty());
                assert(resolved(start, trace) + after.batch =~= resolved(start, prefix)
                    + before.batch);
            },
            WorkerEvent::Duplicate => {
                assert(after.batch =~= Seq::<U>::empty());
                assert(resolved(start, trace) + after.batch =~= resolved(start, prefix)
                    + before.batch);
            },
            WorkerEvent::Failed => {
                assert(after.batch == before.batch);
            },
        }
    }
}

/// Without duplicates, everything that left the worker was written.
pub proof fn lemma_resolved_is_written<U>(start: WorkerState<U>, trace: Seq<Timed<U>>)
    requires
        free_of_duplicates(trace),
    ensures
        resolved(start, trace) == written(start, trace),
    decreases trace.len(),
{
    if trace.len() > 0 {
        let prefix = trace.drop_last();
        assert forall|i: int| 0 <= i < prefix.len() implies !(#[trigger] prefix[i].event
            is Duplicate) by {
            assert(prefix[i] == trace[i]);
        }
        lemma_resolved_is_written(start, prefix);
        assert(!(trace[trace.len() - 1].event is Duplicate));
    }
}

/// No data is lost: while the database reports no duplicate, a worker that
/// started empty has written, in order of arrival and each exactly once, every
/// record it received but those of the batch it still holds; once it has
/// terminated it holds none, so all of them are written.
pub proof fn lemma_no_record_lost<U>(
    entry_limit: usize,
    timer_interval: u64,
    started: u64,
    trace: Seq<Timed<U>>,
)
    requires
        admissible(WorkerState::<U>::initial(entry_limit, timer_interval, started), trace),
        free_of_duplicates(trace),
    ensures
        ({
            let start = WorkerState::<U>::initial(entry_limit, timer_interval, started);
            &&& written(start, trace) + run(start, trace).batch == received(trace)
            &&& run(start, trace).phase is Terminating ==> written(start, trace) == received(trace)
        }),
{
    let start = WorkerState::<U>::initial(entry_limit, timer_interval, started);
    lemma_records_accounted(start, trace);
    lemma_resolved_is_written(start, trace);
    lemma_run_keeps_wf(start, trace);
    assert(start.batch + received(trace) =~= received(trace));
    if run(start, trace).phase is Terminating {
        assert(written(start, trace) + run(start, trace).batch =~= written(start, trace));
    }
}

/// Batches are bounded: with an entry limit of at least one, no batch that
/// goes to the database is empty or holds more records than the limit.
pub proof fn lemma_attempts_bounded<U>(start: WorkerState<U>, trace: Seq<Timed<U>>)
    requires
        start.wf(),
        admissible(start, trace),
        start.entry_limit >= 1,
    ensures
        forall|i: int|
            0 <= i < attempts(start, trace).len() ==> 1 <= (#[trigger] attempts(
                start,
                trace,
            )[i]).len() <= start.entry_limit,
    decreases trace.len(),
{
    if trace.len() > 0 {
        let prefix = trace.drop_last();
        lemma_attempts_bounded(start, prefix);
        lemma_run_keeps_wf(start, prefix);
        let before = run(start, prefix);
        assert forall|i: int| 0 <= i < attempts(start, trace).len() implies 1 <= (
        #[trigger] attempts(start, trace)[i]).len() <= start.entry_limit by {
            if i < attempts(start, prefix).len() {
                assert(attempts(start, trace)[i] == attempts(start, prefix)[i]);
            } else {
                assert(trace.last().event.from_database());
                assert(before.phase is Flushing);
                assert(attempts(start, trace)[i] == before.batch);
            }
        }
    }
}

/// A window never outlasts the timer interval: a record that arrives at an
/// idle worker opens a window that ends one interval later, the wait that
/// follows is no longer than the interval, and when that wait runs out with
/// nothing more delivered the record goes to the database alone.
pub proof fn lemma_lone_record_flushed<U>(idle: WorkerState<U>, record: U, arrival: u64, later: u64)
    requires
        idle.wf(),
        idle.phase is Idle,
        idle.entry_limit > 1,
    ensures
        ({
            let waiting = idle.step(WorkerEvent::Record(record), arrival);
            let flushing = waiting.step(WorkerEvent::Timeout, later);
            &&& waiting.phase is Accumulating
            &&& waiting.deadline == deadline_after(arrival, idle.timer_interval)
            &&& waiting.action == WorkerAction::Receive {
                timeout: (waiting.deadline - arrival) as u64,
            }
            &&& waiting.deadline - arrival <= idle.timer_interval
            &&& flushing.phase is Flushing
            &&& flushing.action is Insert
            &&& flushing.batch == seq![record]
        }),
{
    let waiting = idle.step(WorkerEvent::Record(record), arrival);
    let flushing = waiting.step(WorkerEvent::Timeout, later);
    assert(flushing.batch =~= seq![record]);
}

/// A duplicate is handled like a success: the batch is dropped without a
/// retry, and the worker goes on to the next batch, or stops if the queue is
/// closed, exactly as it would after a successful insert.
pub proof fn lemma_duplicate_discards<U>(flushing: WorkerState<U>, now: u64)
    requires
        flushing.wf(),
        flushing.phase is Flushing,
    ensures
        flushing.step(WorkerEvent::Duplicate, now) == flushing.step(WorkerEvent::Written, now),
        flushing.step(WorkerEvent::Duplicate, now).batch.len() == 0,
        !(flushing.step(WorkerEvent::Duplicate, now).phase is Flushing),
        !(flushing.step(WorkerEvent::Duplicate, now).action is Retry),
        flushing.step(WorkerEvent::Duplicate, now).wf(),
{
}

/// While inserts fail, the worker holds on to the same batch and asks for a
/// retry after the backoff.
pub proof fn lemma_failures_keep_batch<U>(flushing: WorkerState<U>, failures: Seq<Timed<U>>)
    requires
        flushing.wf(),
        flushing.phase is Flushing,
        all_failed(failures),
    ensures
        admissible(flushing, failures),
        run(flushing, failures).phase is Flushing,
        run(flushing, failures).batch == flushing.batch,
        run(flushing, failures).closed == flushing.closed,
        failures.len() > 0 ==> run(flushing, failures).action == (WorkerAction::Retry {
            backoff: RETRY_BACKOFF,
        }),
        attempts(flushing, failures) == Seq::new(failures.len(), |i: int| flushing.batch),
        written(flushing, failures) == Seq::<U>::empty(),
    decreases failures.len(),
{
    if failures.len() == 0 {
        assert(attempts(flushing, failures) =~= Seq::new(failures.len(), |i: int| flushing.batch));
    } else {
        let prefix = failures.drop_last();
        assert forall|i: int| 0 <= i < prefix.len() implies #[trigger] prefix[i].event
            is Failed by {
            assert(prefix[i] == failures[i]);
        }
        lemma_failures_keep_batch(flushing, prefix);
        assert(failures[failures.len() - 1].event is Failed);
        assert(attempts(flushing, failures) =~= Seq::new(failures.len(), |i: int| flushing.batch));
    }
}

/// A retry does not duplicate: when a batch fails any number of times and is
/// then accepted, every attempt carried the same batch, and the batch was
/// written exactly once.
pub proof fn lemma_retry_writes_once<U>(
    flushing: WorkerState<U>,
    failures: Seq<Timed<U>>,
    now: u64,
)
    requires
        flushing.wf(),
        flushing.phase is Flushing,
        all_failed(failures),
    ensures
        ({
            let trace = failures.push(Timed { event: WorkerEvent::Written, now });
            &&& admissible(flushing, trace)
            &&& attempts(flushing, trace) == Seq::new(
                failures.len() + 1,
                |i: int| flushing.batch,
            )
            &&& written(flushing, trace) == flushing.batch
            &&& run(flushing, trace).batch.len() == 0
            &&& !(run(flushing, trace).phase is Flushing)
        }),
{
    let trace = failures.push(Timed { event: WorkerEvent::Written, now });
    lemma_failures_keep_batch(flushing, failures);
    assert(trace.drop_last() =~= failures);
    assert(attempts(flushing, trace) =~= Seq::new(failures.len() + 1, |i: int| flushing.batch));
    assert(written(flushing, trace) =~= flushing.batch);
}

} // verus!
