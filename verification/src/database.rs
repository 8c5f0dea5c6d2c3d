//! The producer's side of the batched writer: the bounded queue between the
//! matching engine and the writer's workers, the non-blocking append, and the
//! backpressure and status queries.
//!
//! The queue is a `crossbeam_channel` bounded channel. What it holds at any
//! moment depends on the other threads, so nothing is claimed of its depth;
//! the decisions taken on a depth are functions of their own and are proved
//! for every depth.

use crate::backpressure::{is_near_capacity, near_capacity};
use crate::worker::Worker;
use crossbeam_channel::{Receiver, Sender};
use vstd::prelude::*;

verus! {

/// The number of records after which a worker closes a batch.
pub const ENTRY_LIMIT: usize = 1000;

/// The longest a record waits in an open batch, in nanoseconds: a tenth of a
/// second.
pub const TIMER_INTERVAL: u64 = 100_000_000;

/// The largest buffer a writer can be given: a quarter of the address range.
pub const MAX_BUFFER_SIZE: usize = usize::MAX / 4;

/// The sending half of a `crossbeam_channel` channel, opaque to the verifier.
#[verifier::external_type_specification]
#[verifier::external_body]
#[verifier::reject_recursive_types(T)]
pub struct ExSender<T>(crossbeam_channel::Sender<T>);

/// The receiving half of a `crossbeam_channel` channel, opaque to the
/// verifier.
#[verifier::external_type_specification]
#[verifier::external_body]
#[verifier::reject_recursive_types(T)]
pub struct ExReceiver<T>(crossbeam_channel::Receiver<T>);

/// `crossbeam_channel::bounded` creates a channel that holds at most `cap`
/// messages. Trusted: it returns for every capacity that passes the checks
/// it makes on the capacity before it allocates the buffer; the two halves it
/// returns are opaque.
pub assume_specification<T>[ crossbeam_channel::bounded::<T> ](cap: usize) -> (halves: (
    Sender<T>,
    Receiver<T>,
))
    requires
        cap <= MAX_BUFFER_SIZE,
;

/// `Sender::len` counts the messages in the channel at the moment of the
/// call. Trusted: nothing is claimed of the count, which other threads change.
pub assume_specification<T>[ crossbeam_channel::Sender::<T>::len ](sender: &Sender<T>) -> (pending:
    usize)
;

/// `Sender::capacity` gives the capacity of a bounded channel and `None` for
/// an unbounded one. Trusted: nothing is claimed of the result.
pub assume_specification<T>[ crossbeam_channel::Sender::<T>::capacity ](
    sender: &Sender<T>,
) -> (capacity: Option<usize>)
;

/// Why a record was not taken into the queue. The record comes back with the
/// error.
pub enum AppendError<U> {
    /// The queue is at capacity.
    Full(U),
    /// Every worker is gone.
    Disconnected(U),
}

impl<U> AppendError<U> {
    /// The record that was not taken.
    pub open spec fn record(self) -> U {
        match self {
            AppendError::Full(record) => record,
            AppendError::Disconnected(record) => record,
        }
    }

    /// Takes the record back out of the error.
    pub fn into_record(self) -> (record: U)
        ensures
            record == self.record(),
    {
        match self {
            AppendError::Full(record) => record,
            AppendError::Disconnected(record) => record,
        }
    }
}

/// Calls `Sender::try_send`, which never blocks. Trusted: where the channel
/// does not take the message, the error holds the very message that was
/// offered; whether it takes it depends on the channel's state and is not
/// claimed.
#[verifier::external_body]
fn offer<U>(sender: &Sender<U>, item: U) -> (outcome: Result<(), AppendError<U>>)
    ensures
        outcome matches Err(error) ==> error.record() == item,
{
    match sender.try_send(item) {
        Ok(()) => Ok(()),
        Err(crossbeam_channel::TrySendError::Full(back)) => Err(AppendError::Full(back)),
        Err(crossbeam_channel::TrySendError::Disconnected(back)) => Err(
            AppendError::Disconnected(back),
        ),
    }
}

/// Why a writer could not be built.
#[derive(Clone, Copy, Debug, PartialEq, Eq, Structural)]
pub enum WriterError {
    /// The buffer size is beyond `MAX_BUFFER_SIZE`.
    BufferTooLarge,
}

/// The operational status of a writer.
pub struct DatabaseWriterStatus {
    /// The number of records waiting in the queue.
    pub pending_count: usize,
}

/// What a writer is built from.
pub struct DatabaseWriterConfig {
    /// The connection string of the database.
    pub database_url: String,
    /// Whether the workers are to be started with the writer.
    pub run_daemon: bool,
    /// The capacity of the inbound queue.
    pub inner_buffer_size: usize,
}

/// What each worker thread is given.
#[verifier::reject_recursive_types(U)]
pub struct ThreadConfig<U> {
    /// The connection string of the database.
    pub conn_str: String,
    /// The receiving half of the inbound queue.
    pub channel_receiver: Receiver<U>,
    /// The longest a record waits in an open batch, in nanoseconds.
    pub timer_interval: u64,
    /// The number of records after which a batch closes.
    pub entry_limit: usize,
}

/// The producer's handle on the writer of one table.
#[verifier::reject_recursive_types(U)]
pub struct DatabaseWriter<U> {
    /// The sending half of the inbound queue.
    pub sender: Sender<U>,
    /// The number of worker threads.
    pub thread_num: usize,
    /// What each worker thread is given.
    pub thread_config: ThreadConfig<U>,
}

/// Whether a queue with `pending` records counts as near its capacity. An
/// unbounded queue never does.
pub open spec fn blocked_at(pending: usize, capacity: Option<usize>) -> bool {
    match capacity {
        Some(capacity) => near_capacity(pending as int, capacity as int),
        None => false,
    }
}

/// Decides the backpressure signal from what the queue reports of itself.
pub fn is_blocked(pending: usize, capacity: Option<usize>) -> (blocked: bool)
    ensures
        blocked == blocked_at(pending, capacity),
{
    match capacity {
        Some(capacity) => is_near_capacity(pending, capacity),
        None => false,
    }
}

impl<U> ThreadConfig<U> {
    /// A worker for this configuration, idle at time `now`.
    pub fn worker(&self, now: u64) -> (worker: Worker<U>)
        ensures
            worker@ == crate::worker::WorkerState::<U>::initial(
                self.entry_limit,
                self.timer_interval,
                now,
            ),
            worker@.wf(),
    {
        Worker::new(self.entry_limit, self.timer_interval, now)
    }
}

impl<U> DatabaseWriter<U> {
    /// Builds a writer with a queue of the configured capacity, one worker,
    /// and the standard batch limits. Fails only on a buffer size beyond
    /// `MAX_BUFFER_SIZE`. No connection is opened and no worker is started.
    pub fn new(config: &DatabaseWriterConfig) -> (writer: Result<DatabaseWriter<U>, WriterError>)
        ensures
            writer is Ok <==> config.inner_buffer_size <= MAX_BUFFER_SIZE,
            writer matches Err(error) ==> error == WriterError::BufferTooLarge,
            writer matches Ok(built) ==> {
                &&& built.thread_num == 1
                &&& built.thread_config.conn_str@ == config.database_url@
                &&& built.thread_config.entry_limit == ENTRY_LIMIT
                &&& built.thread_config.timer_interval == TIMER_INTERVAL
            },
    {
        if config.inner_buffer_size > MAX_BUFFER_SIZE {
            return Err(WriterError::BufferTooLarge);
        }
        let (sender, receiver) = crossbeam_channel::bounded::<U>(config.inner_buffer_size);
        let thread_config = ThreadConfig {
            conn_str: config.database_url.clone(),
            channel_receiver: receiver,
            timer_interval: TIMER_INTERVAL,
            entry_limit: ENTRY_LIMIT,
        };
        Ok(DatabaseWriter { sender, thread_num: 1, thread_config })
    }

    /// Whether the queue is near its capacity at this moment: an advisory
    /// signal, computed by `is_blocked` from the depth and the capacity that
    /// the queue reports.
    pub fn is_block(&self) -> bool {
        let pending = self.sender.len();
        let capacity = self.sender.capacity();
        is_blocked(pending, capacity)
    }

    /// Offers a record to the queue without blocking. Where the queue does
    /// not take it, the record comes back in the error.
    pub fn append(&self, item: U) -> (outcome: Result<(), AppendError<U>>)
        ensures
            outcome matches Err(error) ==> error.record() == item,
    {
        offer(&self.sender, item)
    }

    /// Closes the producer's side of the queue. The workers see the end of
    /// the stream once they have drained what is left.
    pub fn finish(self) -> (outcome: Result<(), WriterError>)
        ensures
            outcome is Ok,
    {
        Ok(())
    }

    /// The operational status: the depth of the queue at this moment.
    pub fn status(&self) -> DatabaseWriterStatus {
        DatabaseWriterStatus { pending_count: self.sender.len() }
    }

    /// Does nothing: a writer has no state to reset.
    pub fn reset(&mut self)
        ensures
            final(self).thread_num == old(self).thread_num,
            final(self).thread_config.conn_str == old(self).thread_config.conn_str,
            final(self).thread_config.entry_limit == old(self).thread_config.entry_limit,
            final(self).thread_config.timer_interval == old(self).thread_config.timer_interval,
    {
    }
}

} // verus!
