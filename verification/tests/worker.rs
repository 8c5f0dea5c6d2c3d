use exchange_persist::database::{DatabaseWriter, DatabaseWriterConfig};
use exchange_persist::worker::{
    classify_insert, is_unique_violation, InsertOutcome, Record, Worker, WorkerAction,
    WorkerEvent, WorkerPhase, RETRY_BACKOFF,
};
use std::time::{Duration, Instant};

/// A table in memory with a unique key, which fails the first `failures`
/// inserts it is asked for.
struct Table {
    rows: Vec<u64>,
    calls: Vec<Vec<u64>>,
    failures: usize,
}

impl Table {
    fn new(failures: usize) -> Table {
        Table { rows: Vec::new(), calls: Vec::new(), failures }
    }
}

#[derive(Clone, Debug, PartialEq)]
struct Row(u64);

impl Record for Row {
    type Connection = Table;

    fn table_name() -> String {
        String::from("rows")
    }

    fn batch_insert(records: &[Row], connection: &mut Table) -> InsertOutcome {
        connection.calls.push(records.iter().map(|row| row.0).collect());
        if connection.failures > 0 {
            connection.failures -= 1;
            return InsertOutcome::Failed;
        }
        if records.iter().any(|row| connection.rows.contains(&row.0)) {
            return InsertOutcome::Database { code: Some(String::from("23505")) };
        }
        connection.rows.extend(records.iter().map(|row| row.0));
        InsertOutcome::Done
    }
}

fn keys(worker: &Worker<Row>) -> Vec<u64> {
    worker.batch().iter().map(|row| row.0).collect()
}

/// Runs a worker on a live queue and a table until the queue is closed and
/// drained, sleeping nowhere.
fn drive(writer_queue: &crossbeam_channel::Receiver<Row>, limit: usize, table: &mut Table) {
    let clock = Instant::now();
    let now = |clock: &Instant| clock.elapsed().as_nanos() as u64;
    let mut worker: Worker<Row> = Worker::new(limit, 2_000_000, now(&clock));
    let mut action = worker.action();
    loop {
        match action {
            WorkerAction::Receive { timeout } => {
                let event = match writer_queue.recv_timeout(Duration::from_nanos(timeout)) {
                    Ok(row) => WorkerEvent::Record(row),
                    Err(crossbeam_channel::RecvTimeoutError::Timeout) => WorkerEvent::Timeout,
                    Err(crossbeam_channel::RecvTimeoutError::Disconnected) => {
                        WorkerEvent::Disconnected
                    }
                };
                action = worker.handle(event, now(&clock));
            }
            WorkerAction::Insert | WorkerAction::Retry { .. } => {
                assert!(!worker.batch().is_empty());
                assert!(worker.batch().len() <= limit);
                action = worker.flush(table, now(&clock));
            }
            WorkerAction::Stop => break,
        }
    }
    assert_eq!(worker.phase(), WorkerPhase::Terminating);
}

#[test]
fn new_worker_is_idle_and_waits_one_interval() {
    let worker: Worker<Row> = Worker::new(3, 100, 1_000);
    assert_eq!(worker.phase(), WorkerPhase::Idle);
    assert_eq!(worker.action(), WorkerAction::Receive { timeout: 100 });
    assert!(worker.batch().is_empty());
    assert!(!worker.is_closed());
}

#[test]
fn batch_closes_at_the_entry_limit() {
    let mut worker: Worker<Row> = Worker::new(3, 100, 0);
    assert_eq!(worker.handle(WorkerEvent::Record(Row(1)), 10), WorkerAction::Receive { timeout: 100 });
    assert_eq!(worker.phase(), WorkerPhase::Accumulating);
    assert_eq!(worker.handle(WorkerEvent::Record(Row(2)), 20), WorkerAction::Receive { timeout: 90 });
    assert_eq!(worker.handle(WorkerEvent::Record(Row(3)), 30), WorkerAction::Insert);
    assert_eq!(worker.phase(), WorkerPhase::Flushing);
    assert_eq!(keys(&worker), vec![1, 2, 3]);
}

#[test]
fn window_opens_with_the_first_record() {
    let mut worker: Worker<Row> = Worker::new(10, 100, 0);
    // the first record arrives late in the idle window: the window starts anew
    assert_eq!(worker.handle(WorkerEvent::Record(Row(1)), 95), WorkerAction::Receive { timeout: 100 });
    // later records do not move it
    assert_eq!(worker.handle(WorkerEvent::Record(Row(2)), 150), WorkerAction::Receive { timeout: 45 });
    assert_eq!(worker.handle(WorkerEvent::Record(Row(3)), 195), WorkerAction::Receive { timeout: 0 });
}

#[test]
fn batch_closes_when_its_window_has_run_out() {
    let mut worker: Worker<Row> = Worker::new(10, 100, 0);
    assert_eq!(worker.handle(WorkerEvent::Record(Row(1)), 50), WorkerAction::Receive { timeout: 100 });
    assert_eq!(worker.handle(WorkerEvent::Record(Row(2)), 151), WorkerAction::Insert);
    assert_eq!(keys(&worker), vec![1, 2]);
}

#[test]
fn lone_record_is_flushed_after_one_interval() {
    let mut worker: Worker<Row> = Worker::new(1000, 100_000_000, 0);
    let arrival = 42;
    assert_eq!(
        worker.handle(WorkerEvent::Record(Row(7)), arrival),
        WorkerAction::Receive { timeout: 100_000_000 }
    );
    assert_eq!(worker.handle(WorkerEvent::Timeout, arrival + 100_000_000), WorkerAction::Insert);
    assert_eq!(keys(&worker), vec![7]);
}

#[test]
fn timeout_with_nothing_collected_starts_a_new_cycle() {
    let mut worker: Worker<Row> = Worker::new(3, 100, 0);
    assert_eq!(worker.handle(WorkerEvent::Timeout, 100), WorkerAction::Receive { timeout: 100 });
    assert_eq!(worker.phase(), WorkerPhase::Idle);
    assert!(worker.batch().is_empty());
}

#[test]
fn entry_limit_of_one_flushes_every_record() {
    let mut worker: Worker<Row> = Worker::new(1, 100, 0);
    assert_eq!(worker.handle(WorkerEvent::Record(Row(1)), 1), WorkerAction::Insert);
    assert_eq!(worker.handle(WorkerEvent::Written, 2), WorkerAction::Receive { timeout: 100 });
    assert_eq!(worker.handle(WorkerEvent::Record(Row(2)), 3), WorkerAction::Insert);
    assert_eq!(keys(&worker), vec![2]);
}

#[test]
fn entry_limit_of_zero_flushes_every_record() {
    let mut worker: Worker<Row> = Worker::new(0, 100, 0);
    assert_eq!(worker.handle(WorkerEvent::Record(Row(1)), 1), WorkerAction::Insert);
    assert_eq!(keys(&worker), vec![1]);
}

#[test]
fn window_end_is_held_at_the_end_of_the_clock() {
    let mut worker: Worker<Row> = Worker::new(3, u64::MAX, 10);
    assert_eq!(worker.action(), WorkerAction::Receive { timeout: u64::MAX - 10 });
    assert_eq!(
        worker.handle(WorkerEvent::Record(Row(1)), 100),
        WorkerAction::Receive { timeout: u64::MAX - 100 }
    );
}

#[test]
fn disconnect_flushes_the_partial_batch_and_then_stops() {
    let mut worker: Worker<Row> = Worker::new(10, 100, 0);
    worker.handle(WorkerEvent::Record(Row(1)), 1);
    worker.handle(WorkerEvent::Record(Row(2)), 2);
    assert_eq!(worker.handle(WorkerEvent::Disconnected, 3), WorkerAction::Insert);
    assert!(worker.is_closed());
    assert_eq!(keys(&worker), vec![1, 2]);
    assert_eq!(worker.handle(WorkerEvent::Written, 4), WorkerAction::Stop);
    assert_eq!(worker.phase(), WorkerPhase::Terminating);
    assert!(worker.batch().is_empty());
}

#[test]
fn disconnect_with_nothing_collected_stops_at_once() {
    let mut worker: Worker<Row> = Worker::new(10, 100, 0);
    assert_eq!(worker.handle(WorkerEvent::Disconnected, 3), WorkerAction::Stop);
    assert_eq!(worker.phase(), WorkerPhase::Terminating);
}

#[test]
fn failed_insert_keeps_the_batch_and_backs_off_one_second() {
    let mut worker: Worker<Row> = Worker::new(2, 100, 0);
    worker.handle(WorkerEvent::Record(Row(1)), 1);
    worker.handle(WorkerEvent::Record(Row(2)), 2);
    assert_eq!(worker.handle(WorkerEvent::Failed, 3), WorkerAction::Retry { backoff: 1_000_000_000 });
    assert_eq!(RETRY_BACKOFF, 1_000_000_000);
    assert_eq!(worker.phase(), WorkerPhase::Flushing);
    assert_eq!(keys(&worker), vec![1, 2]);
    assert_eq!(worker.handle(WorkerEvent::Failed, 4), WorkerAction::Retry { backoff: 1_000_000_000 });
    assert_eq!(keys(&worker), vec![1, 2]);
    assert_eq!(worker.handle(WorkerEvent::Written, 5), WorkerAction::Receive { timeout: 100 });
    assert!(worker.batch().is_empty());
}

#[test]
fn duplicate_batch_is_discarded_without_retry() {
    let mut worker: Worker<Row> = Worker::new(2, 100, 0);
    worker.handle(WorkerEvent::Record(Row(1)), 1);
    worker.handle(WorkerEvent::Record(Row(2)), 2);
    assert_eq!(worker.handle(WorkerEvent::Duplicate, 3), WorkerAction::Receive { timeout: 100 });
    assert_eq!(worker.phase(), WorkerPhase::Idle);
    assert!(worker.batch().is_empty());
    // the next batch goes on as usual
    worker.handle(WorkerEvent::Record(Row(3)), 4);
    assert_eq!(worker.handle(WorkerEvent::Record(Row(4)), 5), WorkerAction::Insert);
    assert_eq!(keys(&worker), vec![3, 4]);
}

#[test]
fn classify_insert_tells_duplicates_from_failures() {
    assert!(matches!(classify_insert::<Row>(&InsertOutcome::Done), WorkerEvent::Written));
    assert!(matches!(
        classify_insert::<Row>(&InsertOutcome::Database { code: Some(String::from("23505")) }),
        WorkerEvent::Duplicate
    ));
    assert!(matches!(
        classify_insert::<Row>(&InsertOutcome::Database { code: Some(String::from("23503")) }),
        WorkerEvent::Failed
    ));
    assert!(matches!(
        classify_insert::<Row>(&InsertOutcome::Database { code: Some(String::from("235050")) }),
        WorkerEvent::Failed
    ));
    assert!(matches!(
        classify_insert::<Row>(&InsertOutcome::Database { code: None }),
        WorkerEvent::Failed
    ));
    assert!(matches!(classify_insert::<Row>(&InsertOutcome::Failed), WorkerEvent::Failed));
}

#[test]
fn unique_violation_code_is_23505() {
    assert!(is_unique_violation("23505"));
    assert!(!is_unique_violation("23504"));
    assert!(!is_unique_violation("2350"));
    assert!(!is_unique_violation(""));
    assert!(!is_unique_violation("23505 "));
}

#[test]
fn flush_inserts_the_whole_batch() {
    let mut table = Table::new(0);
    let mut worker: Worker<Row> = Worker::new(3, 100, 0);
    worker.handle(WorkerEvent::Record(Row(5)), 1);
    worker.handle(WorkerEvent::Record(Row(6)), 2);
    worker.handle(WorkerEvent::Record(Row(7)), 3);
    assert_eq!(worker.flush(&mut table, 4), WorkerAction::Receive { timeout: 100 });
    assert_eq!(table.calls, vec![vec![5, 6, 7]]);
    assert_eq!(table.rows, vec![5, 6, 7]);
    assert_eq!(Row::table_name(), "rows");
}

#[test]
fn retry_does_not_duplicate() {
    let mut table = Table::new(1);
    let mut worker: Worker<Row> = Worker::new(2, 100, 0);
    worker.handle(WorkerEvent::Record(Row(1)), 1);
    assert_eq!(worker.handle(WorkerEvent::Record(Row(2)), 2), WorkerAction::Insert);
    assert_eq!(worker.flush(&mut table, 3), WorkerAction::Retry { backoff: RETRY_BACKOFF });
    assert_eq!(worker.flush(&mut table, 4), WorkerAction::Receive { timeout: 100 });
    assert_eq!(table.calls, vec![vec![1, 2], vec![1, 2]]);
    assert_eq!(table.rows, vec![1, 2]);
}

#[test]
fn reappended_record_is_discarded_and_later_batches_go_through() {
    let mut table = Table::new(0);
    table.rows.push(1);
    let mut worker: Worker<Row> = Worker::new(1, 100, 0);
    assert_eq!(worker.handle(WorkerEvent::Record(Row(1)), 1), WorkerAction::Insert);
    assert_eq!(worker.flush(&mut table, 2), WorkerAction::Receive { timeout: 100 });
    assert_eq!(table.calls.len(), 1);
    assert_eq!(table.rows, vec![1]);
    assert_eq!(worker.handle(WorkerEvent::Record(Row(2)), 3), WorkerAction::Insert);
    assert_eq!(worker.flush(&mut table, 4), WorkerAction::Receive { timeout: 100 });
    assert_eq!(table.rows, vec![1, 2]);
}

#[test]
fn no_record_is_lost_between_append_and_finish() {
    let config = DatabaseWriterConfig {
        database_url: String::new(),
        run_daemon: false,
        inner_buffer_size: 64,
    };
    let writer = match DatabaseWriter::<Row>::new(&config) {
        Ok(writer) => writer,
        Err(_) => panic!("a buffer of 64 records is within the limit"),
    };
    let queue = writer.thread_config.channel_receiver.clone();
    for key in 0u64..50 {
        assert!(writer.append(Row(key)).is_ok());
    }
    assert!(writer.finish().is_ok());
    let mut table = Table::new(0);
    drive(&queue, 7, &mut table);
    assert_eq!(table.rows, (0u64..50).collect::<Vec<u64>>());
    assert!(table.calls.iter().all(|batch| !batch.is_empty() && batch.len() <= 7));
    assert_eq!(table.calls.iter().map(|batch| batch.len()).sum::<usize>(), 50);
}

#[test]
fn failing_database_delays_but_loses_nothing() {
    let (sender, queue) = crossbeam_channel::bounded::<Row>(16);
    for key in 0u64..10 {
        assert!(sender.try_send(Row(key)).is_ok());
    }
    drop(sender);
    let mut table = Table::new(3);
    drive(&queue, 4, &mut table);
    assert_eq!(table.rows, (0u64..10).collect::<Vec<u64>>());
    // three failed attempts of the first batch, then one success for each batch
    assert_eq!(table.calls.len(), 3 + 3);
    assert_eq!(table.calls[0], table.calls[3]);
}
