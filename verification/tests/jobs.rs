use plausible_cli::client::{AggregateQuery, BreakdownQuery, TimeseriesQuery};
use plausible_cli::clock::Timestamp;
use plausible_cli::config::{ConfigPaths, FileRead};
use plausible_cli::nonzero::NonZeroU32;
use plausible_cli::output::{render_queue_snapshot, Output, OutputFormat};
use plausible_cli::queue::worker::{
    RetryPolicy, Worker, WorkerAction, WorkerEvent, WorkerState, DEFAULT_BACKOFF_MILLIS,
    LONGEST_BACKOFF_MILLIS,
};
use plausible_cli::queue::{
    JobKind, JobMessage, JobRequest, JobResponse, QueueHandle, QueueJobState, Submission,
    TelemetryEvent, TelemetryKind, WorkerError,
};
use plausible_cli::rate_limit::{
    LedgerSource, RateLimitConfig, RateLimitError, RateLimiter, UsageLedger,
};
use std::path::PathBuf;

fn at(second: u8) -> Timestamp {
    Timestamp { day: 2_460_312, hour: 3, minute: 4, second, nanosecond: 0, offset: 0 }
}

fn one() -> NonZeroU32 {
    NonZeroU32::new(1).unwrap()
}

fn request(account: &str, kind: JobKind) -> JobRequest {
    JobRequest { account: account.into(), kind }
}

fn custom(label: &str) -> JobRequest {
    request("test", JobKind::Custom { label: label.into() })
}

fn limiter() -> RateLimiter {
    let paths = ConfigPaths::from_base_dir(PathBuf::from("/config"));
    let usage = match UsageLedger::load(&paths, "test", FileRead::Missing) {
        Ok(LedgerSource::Ready(usage)) => usage,
        other => panic!("unexpected source {:?}", other),
    };
    RateLimiter::new(usage, RateLimitConfig::new(NonZeroU32::new(100).unwrap()))
}

fn published(action: &WorkerAction) -> &TelemetryEvent {
    match action {
        WorkerAction::Publish(event) => event,
        other => panic!("unexpected action {:?}", other),
    }
}

fn text(outcome: Result<Output, plausible_cli::Error>) -> String {
    match outcome {
        Ok(Output::Text(text)) => text,
        other => panic!("unexpected outcome {:?}", other),
    }
}

fn idle(retry: RetryPolicy) -> Worker {
    Worker { retry, state: WorkerState::Waiting }
}

fn executing(message: JobMessage, queue: &mut QueueHandle) -> Worker {
    let (worker, actions) = idle(RetryPolicy::default()).run(WorkerEvent::Received(message, at(1)), queue);
    assert_eq!(actions.len(), 2);
    assert_eq!(published(&actions[0]).kind, TelemetryKind::Started);
    let (worker, actions) = worker.run(WorkerEvent::Acquired, queue);
    assert_eq!(actions.len(), 1);
    assert!(matches!(actions[0], WorkerAction::Execute));
    worker
}

#[test]
fn jobs_are_described() {
    let query = AggregateQuery {
        metrics: vec!["visitors".into(), "page\"views".into()],
        ..AggregateQuery::default()
    };
    let describe = |kind: JobKind| request("acct", kind).description();
    assert_eq!(describe(JobKind::ListSites), "List sites for acct");
    assert_eq!(
        describe(JobKind::StatsAggregate { query: Box::new(query) }),
        "Aggregate stats for acct ([\"visitors\", \"page\\\"views\"])"
    );
    let timeseries = TimeseriesQuery {
        site_id: "s".into(),
        metrics: vec![],
        period: None,
        date: None,
        interval: None,
        filters: vec![],
        properties: vec![],
        compare: None,
        sort: None,
        limit: None,
        page: None,
    };
    assert_eq!(
        describe(JobKind::StatsTimeseries { query: Box::new(timeseries) }),
        "Timeseries stats for acct ([])"
    );
    let breakdown = BreakdownQuery {
        site_id: "s".into(),
        property: "p".into(),
        metrics: vec!["m".into()],
        period: None,
        date: None,
        filters: vec![],
        properties: vec![],
        compare: None,
        sort: None,
        limit: None,
        page: None,
        included: None,
    };
    assert_eq!(
        describe(JobKind::StatsBreakdown { query: Box::new(breakdown) }),
        "Breakdown stats for acct ([\"m\"])"
    );
    assert_eq!(describe(JobKind::Custom { label: "custom".into() }), "custom");
    assert_eq!(
        describe(JobKind::EventsImport { events: vec![serde_json::Value::Null] }),
        "Import 1 events for acct"
    );
    assert_eq!(
        describe(JobKind::SiteDelete { site_id: "s".into() }),
        "Delete site s for acct"
    );
}

#[test]
fn jobs_are_numbered_and_queued_in_order() {
    let mut queue = QueueHandle::new();
    assert!(queue.is_idle());
    let Submission { ticket, message, telemetry } = queue.submit(custom("a"), one(), at(0));
    assert_eq!(ticket.id(), 1);
    assert_eq!(message.id, 1);
    assert_eq!(message.weight.get(), 1);
    assert_eq!(telemetry.kind, TelemetryKind::Enqueued);
    assert_eq!(telemetry.description, "a");
    assert_eq!(telemetry.timestamp, at(0));
    let second = queue.submit(custom("b"), one(), at(1));
    assert_eq!(second.ticket.id(), 2);
    let jobs = queue.snapshot();
    assert_eq!(jobs.len(), 2);
    assert_eq!(jobs[0].description, "a");
    assert_eq!(jobs[1].state, QueueJobState::Pending);

    queue.start(2, at(2));
    let jobs = queue.snapshot();
    assert_eq!(jobs[0].state, QueueJobState::Pending);
    assert_eq!(jobs[1].state, QueueJobState::InFlight);
    assert_eq!(jobs[1].started_at, Some(at(2)));
    queue.finish(2);
    queue.finish(7);
    let jobs = queue.snapshot();
    assert_eq!(jobs.len(), 1);
    assert_eq!(jobs[0].id, 1);
    assert!(matches!(queue.refuse(1), WorkerError::QueueClosed));
    assert!(queue.is_idle());
    assert_eq!(queue.submit(custom("c"), one(), at(3)).ticket.id(), 3);
}

#[test]
fn worker_answers_a_job_that_succeeds() {
    let (worker, mut queue, capacity) = Worker::spawn(Some(4), RetryPolicy::default());
    assert_eq!(capacity, 4);
    assert!(matches!(worker.state, WorkerState::Waiting));
    let mut limiter = limiter();
    let submission = queue.submit(custom("custom"), NonZeroU32::new(3).unwrap(), at(0));
    let worker = executing(submission.message, &mut queue);
    assert_eq!(queue.snapshot()[0].state, QueueJobState::InFlight);
    let (worker, actions) =
        worker.run(WorkerEvent::Executed(Ok(JobResponse::Acknowledged), at(2)), &mut queue);
    assert_eq!(actions.len(), 1);
    let status = match &actions[0] {
        WorkerAction::Record { weight, now } => limiter.record_success(*weight, *now),
        other => panic!("unexpected action {:?}", other),
    };
    assert_eq!(status.hourly_used, 3);
    let (worker, actions) = worker.run(WorkerEvent::Recorded(Ok(status), at(3)), &mut queue);
    assert!(matches!(worker.state, WorkerState::Waiting));
    assert_eq!(published(&actions[0]).kind, TelemetryKind::Succeeded);
    assert_eq!(published(&actions[0]).status, Some(status));
    assert!(matches!(actions[2], WorkerAction::Receive));
    let result = match actions.into_iter().nth(1) {
        Some(WorkerAction::Respond { id, result }) => {
            assert_eq!(id, 1);
            result
        }
        other => panic!("unexpected action {:?}", other),
    };
    let outcome = submission.ticket.await_result(Some(result)).expect("result");
    assert!(matches!(outcome, JobResponse::Acknowledged));
    assert!(queue.is_idle());
}

#[test]
fn worker_answers_a_job_that_fails_without_counting_it() {
    let mut queue = QueueHandle::new();
    let submission = queue.submit(custom("custom"), one(), at(0));
    let worker = executing(submission.message, &mut queue);
    let error = WorkerError::Execution("no".into());
    let (worker, actions) = worker.run(WorkerEvent::Executed(Err(error), at(2)), &mut queue);
    assert!(matches!(worker.state, WorkerState::Waiting));
    assert_eq!(actions.len(), 3);
    assert_eq!(published(&actions[0]).kind, TelemetryKind::Failed);
    assert_eq!(published(&actions[0]).status, None);
    assert!(matches!(&actions[1], WorkerAction::Respond { id: 1, result: Err(_) }));
    assert!(queue.is_idle());
}

#[test]
fn worker_reports_success_even_if_counters_cannot_be_stored() {
    let mut queue = QueueHandle::new();
    let submission = queue.submit(custom("custom"), one(), at(0));
    let worker = executing(submission.message, &mut queue);
    let (worker, _) =
        worker.run(WorkerEvent::Executed(Ok(JobResponse::EventAck), at(2)), &mut queue);
    let failure = RateLimitError::Serialize("full".into());
    let (_, actions) = worker.run(WorkerEvent::Recorded(Err(failure), at(3)), &mut queue);
    assert_eq!(published(&actions[0]).kind, TelemetryKind::Succeeded);
    assert_eq!(published(&actions[0]).status, None);
    assert!(matches!(&actions[1], WorkerAction::Respond { result: Ok(_), .. }));
}

#[test]
fn worker_takes_one_job_at_a_time_and_stops_when_closed() {
    let mut queue = QueueHandle::new();
    let first = queue.submit(custom("a"), one(), at(0));
    let second = queue.submit(custom("b"), one(), at(0));
    let worker = executing(first.message, &mut queue);
    let (worker, actions) = worker.run(WorkerEvent::Received(second.message, at(2)), &mut queue);
    assert!(matches!(worker.state, WorkerState::Executing(_, 0)));
    assert!(actions.is_empty());
    assert_eq!(queue.snapshot()[1].state, QueueJobState::Pending);
    let (worker, actions) = idle(RetryPolicy::default()).run(WorkerEvent::Closed, &mut queue);
    assert!(matches!(worker.state, WorkerState::Stopped));
    assert!(actions.is_empty());
    let (_, _, capacity) = Worker::spawn(None, RetryPolicy::default());
    assert_eq!(capacity, 128);
}

#[test]
fn lost_results_mean_a_closed_queue() {
    let mut queue = QueueHandle::new();
    let submission = queue.submit(custom("a"), one(), at(0));
    let error = submission.ticket.await_result(None).expect_err("closed");
    assert_eq!(error.message(), "queue closed");
    let error = WorkerError::RateLimit(RateLimitError::Serialize("x".into()));
    assert_eq!(error.message(), "rate limiter error: failed to serialize usage file: x");
}

#[test]
fn queue_inspect_empty_json() {
    assert_eq!(text(render_queue_snapshot(&vec![], OutputFormat::Json)), "[]");
    assert_eq!(text(render_queue_snapshot(&vec![], OutputFormat::Human)), "Queue is empty.");
}

#[test]
fn queue_is_printed() {
    let mut queue = QueueHandle::new();
    queue.submit(custom("a"), one(), at(5));
    queue.submit(custom("b"), one(), at(6));
    queue.start(1, at(7));
    let jobs = queue.snapshot();
    assert_eq!(
        text(render_queue_snapshot(&jobs, OutputFormat::Human)),
        "+----+---------+-------------+-----------+----------------------+----------------------+\n\
         | id | account | description | state     | enqueued_at          | started_at           |\n\
         +----+---------+-------------+-----------+----------------------+----------------------+\n\
         | 1  | test    | a           | in-flight | 2024-01-02T03:04:05Z | 2024-01-02T03:04:07Z |\n\
         +----+---------+-------------+-----------+----------------------+----------------------+\n\
         | 2  | test    | b           | pending   | 2024-01-02T03:04:06Z | n/a                  |\n\
         +----+---------+-------------+-----------+----------------------+----------------------+"
    );
    assert_eq!(
        text(render_queue_snapshot(&jobs, OutputFormat::Json)),
        r#"[
  {
    "account": "test",
    "description": "a",
    "enqueued_at": "2024-01-02T03:04:05Z",
    "id": 1,
    "started_at": "2024-01-02T03:04:07Z",
    "state": "in_flight"
  },
  {
    "account": "test",
    "description": "b",
    "enqueued_at": "2024-01-02T03:04:06Z",
    "id": 2,
    "started_at": null,
    "state": "pending"
  }
]"#
    );
}

#[test]
fn worker_tries_a_job_again_until_no_attempt_is_left() {
    let mut queue = QueueHandle::new();
    let weight = NonZeroU32::new(3).unwrap();
    let submission = queue.submit(custom("custom"), weight, at(0));
    let retry = RetryPolicy { retries: 2, backoff_millis: 1_500 };
    let (mut worker, _) =
        idle(retry).run(WorkerEvent::Received(submission.message, at(1)), &mut queue);
    for (failure, wait) in [(1, 1_500), (2, 3_000)] {
        let (executing, _) = worker.run(WorkerEvent::Acquired, &mut queue);
        let error = WorkerError::Execution("no".into());
        let (delaying, actions) =
            executing.run(WorkerEvent::Executed(Err(error), at(2)), &mut queue);
        assert_eq!(actions.len(), 2);
        let report = published(&actions[0]);
        assert_eq!(report.kind, TelemetryKind::Retrying);
        let setback = report.setback.as_ref().expect("setback");
        assert_eq!(setback.attempts, failure);
        assert_eq!(setback.error, "execution error: no");
        let due = Timestamp {
            second: if failure == 1 { 3 } else { 5 },
            nanosecond: if failure == 1 { 500_000_000 } else { 0 },
            ..at(2)
        };
        assert_eq!(setback.next_at, Some(due));
        assert!(matches!(actions[1], WorkerAction::Delay { millis } if millis == wait));
        assert_eq!(queue.snapshot()[0].state, QueueJobState::InFlight);
        let (acquiring, actions) = delaying.run(WorkerEvent::Delayed, &mut queue);
        assert!(matches!(&actions[..], [WorkerAction::Acquire(w)] if w.get() == 3));
        worker = acquiring;
    }
    let (executing, actions) = worker.run(WorkerEvent::Acquired, &mut queue);
    assert!(matches!(&actions[..], [WorkerAction::Execute]));
    assert!(matches!(&executing.state, WorkerState::Executing(message, 2) if message.id == 1));
    let error = WorkerError::Execution("never".into());
    let (worker, actions) = executing.run(WorkerEvent::Executed(Err(error), at(9)), &mut queue);
    assert!(matches!(worker.state, WorkerState::Waiting));
    let report = published(&actions[0]);
    assert_eq!(report.kind, TelemetryKind::Failed);
    let setback = report.setback.as_ref().expect("setback");
    assert_eq!(setback.attempts, 3);
    assert_eq!(setback.error, "execution error: never");
    assert_eq!(setback.next_at, None);
    assert!(matches!(&actions[1], WorkerAction::Respond { id: 1, result: Err(_) }));
    assert!(queue.is_idle());
}

#[test]
fn job_that_succeeds_at_a_later_attempt_is_counted_once() {
    let mut queue = QueueHandle::new();
    let submission = queue.submit(custom("custom"), one(), at(0));
    let (worker, _) = idle(RetryPolicy::new(1))
        .run(WorkerEvent::Received(submission.message, at(1)), &mut queue);
    let (worker, _) = worker.run(WorkerEvent::Acquired, &mut queue);
    let error = WorkerError::Execution("no".into());
    let (worker, actions) = worker.run(WorkerEvent::Executed(Err(error), at(2)), &mut queue);
    assert!(
        matches!(actions[1], WorkerAction::Delay { millis } if millis == DEFAULT_BACKOFF_MILLIS)
    );
    let (worker, _) = worker.run(WorkerEvent::Delayed, &mut queue);
    let (worker, _) = worker.run(WorkerEvent::Acquired, &mut queue);
    let (_, actions) =
        worker.run(WorkerEvent::Executed(Ok(JobResponse::EventAck), at(3)), &mut queue);
    assert!(matches!(&actions[..], [WorkerAction::Record { weight: 1, .. }]));
}

#[test]
fn waits_double_up_to_the_longest() {
    let policy = RetryPolicy { retries: 9, backoff_millis: 100 };
    let waits: Vec<u64> = (0..5).map(|failures| policy.backoff(failures)).collect();
    assert_eq!(waits, vec![100, 200, 400, 800, 1_600]);
    assert_eq!(policy.backoff(u32::MAX), LONGEST_BACKOFF_MILLIS);
    assert_eq!(RetryPolicy { backoff_millis: 0, ..policy }.backoff(u32::MAX), 0);
    assert_eq!(RetryPolicy::default().retries, 0);
}
