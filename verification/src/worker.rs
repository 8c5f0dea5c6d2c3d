//! The decisions of one writer worker: how records taken from the inbound
//! queue are gathered into bounded batches, and what becomes of a batch after
//! each attempt to insert it.
//!
//! The worker itself performs no I/O. Its owner waits on the queue, talks to the
//! database and sleeps; after each of these it reports what happened and is
//! told what to do next. All times are nanoseconds on a monotonic clock of
//! the owner's choosing.

use vstd::prelude::*;
use vstd::string::*;

verus! {

/// How long a worker sleeps before it offers a failed batch again: one second.
pub const RETRY_BACKOFF: u64 = 1_000_000_000;

/// Where a worker stands in its cycle.
#[derive(Clone, Copy, Debug, PartialEq, Eq, Structural)]
pub enum WorkerPhase {
    /// Waiting for the first record of a batch.
    Idle,
    /// Holding a partial batch whose window is open.
    Accumulating,
    /// Holding a closed batch that the database has not yet resolved.
    Flushing,
    /// The queue is closed and drained and nothing is left to write.
    Terminating,
}

/// What the owner of a worker has to do next.
#[derive(Clone, Copy, Debug, PartialEq, Eq, Structural)]
pub enum WorkerAction {
    /// Wait on the queue for at most `timeout` nanoseconds.
    Receive { timeout: u64 },
    /// Insert the current batch now.
    Insert,
    /// Sleep for `backoff` nanoseconds, then insert the same batch again.
    Retry { backoff: u64 },
    /// Leave the loop: the worker is done.
    Stop,
}

/// What the owner reports back to the worker.
pub enum WorkerEvent<U> {
    /// The queue delivered a record.
    Record(U),
    /// The wait ended with nothing delivered.
    Timeout,
    /// Every producer is gone and the queue is empty.
    Disconnected,
    /// The database accepted the batch.
    Written,
    /// The database refused the batch for a unique-constraint violation.
    Duplicate,
    /// The insert failed for any other reason.
    Failed,
}

/// The result of one insert as the database layer saw it.
pub enum InsertOutcome {
    /// The batch is durably written.
    Done,
    /// The database reported an error, with its error code if it gave one.
    Database { code: Option<String> },
    /// The insert failed before the database could answer.
    Failed,
}

/// The mathematical state of a worker.
pub struct WorkerState<U> {
    pub entry_limit: usize,
    pub timer_interval: u64,
    pub phase: WorkerPhase,
    pub batch: Seq<U>,
    pub deadline: u64,
    pub closed: bool,
    pub action: WorkerAction,
}

/// One entry of a worker's history: an event and the time it was reported.
pub struct Timed<U> {
    pub event: WorkerEvent<U>,
    pub now: u64,
}

/// The end of a batch window opened at `now`, held at the clock's last value
/// where the sum would pass it.
pub open spec fn deadline_after(now: u64, interval: u64) -> u64 {
    if now + interval <= u64::MAX {
        (now + interval) as u64
    } else {
        u64::MAX
    }
}

/// The error code by which the database names a unique-constraint violation.
pub open spec fn unique_violation_code() -> Seq<char> {
    seq!['2', '3', '5', '0', '5']
}

/// The event that an insert outcome amounts to.
pub open spec fn outcome_event<U>(outcome: InsertOutcome) -> WorkerEvent<U> {
    match outcome {
        InsertOutcome::Done => WorkerEvent::Written,
        InsertOutcome::Database { code } => match code {
            Some(text) => if text@ == unique_violation_code() {
                WorkerEvent::Duplicate
            } else {
                WorkerEvent::Failed
            },
            None => WorkerEvent::Failed,
        },
        InsertOutcome::Failed => WorkerEvent::Failed,
    }
}

impl<U> WorkerEvent<U> {
    /// Whether the event answers a wait on the queue.
    pub open spec fn from_queue(self) -> bool {
        self is Record || self is Timeout || self is Disconnected
    }

    /// Whether the event answers an insert.
    pub open spec fn from_database(self) -> bool {
        self is Written || self is Duplicate || self is Failed
    }
}

impl<U> WorkerState<U> {
    /// A fresh worker at time `now`: idle, with an empty batch and a window
    /// that has just opened.
    pub open spec fn initial(entry_limit: usize, timer_interval: u64, now: u64) -> Self {
        WorkerState {
            entry_limit,
            timer_interval,
            phase: WorkerPhase::Idle,
            batch: Seq::empty(),
            deadline: deadline_after(now, timer_interval),
            closed: false,
            action: WorkerAction::Receive {
                timeout: (deadline_after(now, timer_interval) - now) as u64,
            },
        }
    }

    /// Whether the worker is taking records from the queue.
    pub open spec fn collecting(self) -> bool {
        self.phase is Idle || self.phase is Accumulating
    }

    /// The largest batch this worker ever closes. A limit of zero still lets
    /// one record through, since a batch closes only after a record joined it.
    pub open spec fn batch_bound(self) -> int {
        if self.entry_limit == 0 {
            1
        } else {
            self.entry_limit as int
        }
    }

    /// The invariant that ties phase, batch and owed action together.
    pub open spec fn wf(self) -> bool {
        match self.phase {
            WorkerPhase::Idle => {
                &&& self.batch.len() == 0
                &&& !self.closed
                &&& self.action is Receive
            },
            WorkerPhase::Accumulating => {
                &&& 0 < self.batch.len() < self.entry_limit
                &&& !self.closed
                &&& self.action is Receive
            },
            WorkerPhase::Flushing => {
                &&& 0 < self.batch.len() <= self.batch_bound()
                &&& (self.action is Insert || self.action == WorkerAction::Retry {
                    backoff: RETRY_BACKOFF,
                })
            },
            WorkerPhase::Terminating => {
                &&& self.batch.len() == 0
                &&& self.closed
                &&& self.action is Stop
            },
        }
    }

    /// Whether `event` is an answer to the action the worker last asked for.
    pub open spec fn accepts(self, event: WorkerEvent<U>) -> bool {
        ||| self.collecting() && event.from_queue()
        ||| self.phase is Flushing && event.from_database()
    }

    /// The state in which the current batch goes to the database.
    pub open spec fn close_batch(self) -> Self {
        WorkerState { phase: WorkerPhase::Flushing, action: WorkerAction::Insert, ..self }
    }

    /// The state after the current batch is resolved at time `now`: a new
    /// cycle with an empty batch, or the end if the queue is closed.
    pub open spec fn resolve_batch(self, now: u64) -> Self {
        if self.closed {
            WorkerState {
                phase: WorkerPhase::Terminating,
                batch: Seq::empty(),
                action: WorkerAction::Stop,
                ..self
            }
        } else {
            WorkerState {
                phase: WorkerPhase::Idle,
                batch: Seq::empty(),
                deadline: deadline_after(now, self.timer_interval),
                action: WorkerAction::Receive {
                    timeout: (deadline_after(now, self.timer_interval) - now) as u64,
                },
                ..self
            }
        }
    }

    /// The state after `record` arrived at time `now`. The first record of a
    /// batch opens the window anew; the batch closes when it reaches the entry
    /// limit or when its window has run out.
    pub open spec fn take_record(self, record: U, now: u64) -> Self {
        let deadline = if self.batch.len() == 0 {
            deadline_after(now, self.timer_interval)
        } else {
            self.deadline
        };
        let joined = WorkerState { batch: self.batch.push(record), deadline, ..self };
        if joined.batch.len() >= self.entry_limit || now > deadline {
            joined.close_batch()
        } else {
            WorkerState {
                phase: WorkerPhase::Accumulating,
                action: WorkerAction::Receive { timeout: (deadline - now) as u64 },
                ..joined
            }
        }
    }

    /// The state after the wait ran out at time `now`: a partial batch closes,
    /// an empty one starts a new cycle.
    pub open spec fn take_timeout(self, now: u64) -> Self {
        if self.batch.len() > 0 {
            self.close_batch()
        } else {
            self.resolve_batch(now)
        }
    }

    /// The state after the queue reported end of stream: a partial batch
    /// closes for its last flush, an empty one ends the worker.
    pub open spec fn take_disconnect(self) -> Self {
        let closed = WorkerState { closed: true, ..self };
        if self.batch.len() > 0 {
            closed.close_batch()
        } else {
            closed.resolve_batch(0)
        }
    }

    /// The state after a failed insert: the same batch, owed again after the
    /// backoff.
    pub open spec fn keep_batch(self) -> Self {
        WorkerState { action: WorkerAction::Retry { backoff: RETRY_BACKOFF }, ..self }
    }

    /// The state after `event` was reported at time `now`.
    pub open spec fn step(self, event: WorkerEvent<U>, now: u64) -> Self {
        match event {
            WorkerEvent::Record(record) => self.take_record(record, now),
            WorkerEvent::Timeout => self.take_timeout(now),
            WorkerEvent::Disconnected => self.take_disconnect(),
            WorkerEvent::Written => self.resolve_batch(now),
            WorkerEvent::Duplicate => self.resolve_batch(now),
            WorkerEvent::Failed => self.keep_batch(),
        }
    }
}

/// Decides what an insert outcome means for the batch: written, a duplicate
/// to discard, or a failure to retry.
pub fn classify_insert<U>(outcome: &InsertOutcome) -> (event: WorkerEvent<U>)
    ensures
        event == outcome_event::<U>(*outcome),
{
    match outcome {
        InsertOutcome::Done => WorkerEvent::Written,
        InsertOutcome::Database { code } => match code {
            Some(text) => {
                if is_unique_violation(text.as_str()) {
                    WorkerEvent::Duplicate
                } else {
                    WorkerEvent::Failed
                }
            },
            None => WorkerEvent::Failed,
        },
        InsertOutcome::Failed => WorkerEvent::Failed,
    }
}

/// Whether `code` is the database's code for a unique-constraint violation.
pub fn is_unique_violation(code: &str) -> (unique: bool)
    ensures
        unique == (code@ == unique_violation_code()),
{
    if code.unicode_len() != 5 {
        return false;
    }
    let matches = code.get_char(0) == '2' && code.get_char(1) == '3' && code.get_char(2) == '5'
        && code.get_char(3) == '0' && code.get_char(4) == '5';
    proof {
        if matches {
            assert(code@ =~= unique_violation_code());
        }
    }
    matches
}

/// What a type has to offer for its values to be written: the name of its
/// table, and one insert for a whole batch on a live connection. The insert
/// is to be atomic: all records of the batch are written, or none. It reports
/// a failure and leaves the retry to the worker.
pub trait Record: Sized {
    /// The connection that an insert runs on.
    type Connection;

    /// The table the records go to, for diagnostics.
    fn table_name() -> String;

    /// Inserts `records`, in order, in one round trip.
    fn batch_insert(records: &[Self], connection: &mut Self::Connection) -> InsertOutcome;
}

/// One writer worker: a batch in the making and the rule for what comes next.
pub struct Worker<U> {
    entry_limit: usize,
    timer_interval: u64,
    phase: WorkerPhase,
    batch: Vec<U>,
    deadline: u64,
    closed: bool,
    action: WorkerAction,
}

impl<U> View for Worker<U> {
    type V = WorkerState<U>;

    closed spec fn view(&self) -> WorkerState<U> {
        WorkerState {
            entry_limit: self.entry_limit,
            timer_interval: self.timer_interval,
            phase: self.phase,
            batch: self.batch@,
            deadline: self.deadline,
            closed: self.closed,
            action: self.action,
        }
    }
}

fn window_end(now: u64, interval: u64) -> (deadline: u64)
    ensures
        deadline == deadline_after(now, interval),
        deadline >= now,
{
    match now.checked_add(interval) {
        Some(end) => end,
        None => u64::MAX,
    }
}

impl<U> Worker<U> {
    /// Creates an idle worker whose first window opens at `now`.
    pub fn new(entry_limit: usize, timer_interval: u64, now: u64) -> (worker: Self)
        ensures
            worker@ == WorkerState::<U>::initial(entry_limit, timer_interval, now),
            worker@.wf(),
    {
        let deadline = window_end(now, timer_interval);
        Worker {
            entry_limit,
            timer_interval,
            phase: WorkerPhase::Idle,
            batch: Vec::new(),
            deadline,
            closed: false,
            action: WorkerAction::Receive { timeout: deadline - now },
        }
    }

    /// The phase the worker is in.
    pub fn phase(&self) -> (phase: WorkerPhase)
        ensures
            phase == self@.phase,
    {
        self.phase
    }

    /// What the owner has to do next.
    pub fn action(&self) -> (action: WorkerAction)
        ensures
            action == self@.action,
    {
        self.action
    }

    /// The records of the current batch, oldest first.
    pub fn batch(&self) -> (records: &[U])
        ensures
            records@ == self@.batch,
    {
        self.batch.as_slice()
    }

    /// Whether the queue has reported end of stream.
    pub fn is_closed(&self) -> (closed: bool)
        ensures
            closed == self@.closed,
    {
        self.closed
    }

    fn resolve(&mut self, now: u64)
        ensures
            final(self)@ == old(self)@.resolve_batch(now),
    {
        self.batch = Vec::new();
        if self.closed {
            self.phase = WorkerPhase::Terminating;
            self.action = WorkerAction::Stop;
        } else {
            let deadline = window_end(now, self.timer_interval);
            self.phase = WorkerPhase::Idle;
            self.deadline = deadline;
            self.action = WorkerAction::Receive { timeout: deadline - now };
        }
    }

    /// Takes the answer to the action last asked for, reported at time `now`,
    /// and returns the action that is owed next.
    pub fn handle(&mut self, event: WorkerEvent<U>, now: u64) -> (action: WorkerAction)
        requires
            old(self)@.wf(),
            old(self)@.accepts(event),
        ensures
            final(self)@ == old(self)@.step(event, now),
            final(self)@.wf(),
            action == final(self)@.action,
    {
        match event {
            WorkerEvent::Record(record) => {
                if self.batch.len() == 0 {
                    self.deadline = window_end(now, self.timer_interval);
                }
                self.batch.push(record);
                if self.batch.len() >= self.entry_limit || now > self.deadline {
                    self.phase = WorkerPhase::Flushing;
                    self.action = WorkerAction::Insert;
                } else {
                    self.phase = WorkerPhase::Accumulating;
                    self.action = WorkerAction::Receive { timeout: self.deadline - now };
                }
            },
            WorkerEvent::Timeout => {
                if self.batch.len() > 0 {
                    self.phase = WorkerPhase::Flushing;
                    self.action = WorkerAction::Insert;
                } else {
                    self.resolve(now);
                }
            },
            WorkerEvent::Disconnected => {
                self.closed = true;
                if self.batch.len() > 0 {
                    self.phase = WorkerPhase::Flushing;
                    self.action = WorkerAction::Insert;
                } else {
                    self.resolve(0);
                }
            },
            WorkerEvent::Written => {
                self.resolve(now);
            },
            WorkerEvent::Duplicate => {
                self.resolve(now);
            },
            WorkerEvent::Failed => {
                self.action = WorkerAction::Retry { backoff: RETRY_BACKOFF };
            },
        }
        self.action
    }
}

impl<U: Record> Worker<U> {
    /// Makes one attempt to insert the current batch on `connection` and
    /// takes the outcome as `handle` would: a written or duplicate batch is
    /// resolved, a failed one is kept for a retry after the backoff. The
    /// whole batch is what the insert is given.
    pub fn flush(&mut self, connection: &mut U::Connection, now: u64) -> (action: WorkerAction)
        requires
            old(self)@.wf(),
            old(self)@.phase is Flushing,
        ensures
            final(self)@ == old(self)@.resolve_batch(now) || final(self)@ == old(self)@.keep_batch(),
            final(self)@.wf(),
            action == final(self)@.action,
    {
        let outcome = U::batch_insert(self.batch.as_slice(), connection);
        let event = classify_insert::<U>(&outcome);
        self.handle(event, now)
    }
}

} // verus!
