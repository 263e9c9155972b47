//! The worker: it takes one job after the other, waits for the quota, has it executed, tries it again
//! if it failed and may be tried again, counts it, and reports.

use super::{
    JobId, JobMessage, JobResponse, JobResult, QueueHandle, Setback, TelemetryEvent, TelemetryKind,
    WorkerError, DEFAULT_QUEUE_CAPACITY,
};
use crate::clock;
use crate::clock::{add_millis, Timestamp};
use crate::nonzero::NonZeroU32;
use crate::queue;
use crate::rate_limit::{RateLimitError, RateStatus};
use vstd::prelude::*;

verus! {

/// How long to wait before the first retry, unless configured otherwise, in milliseconds.
pub const DEFAULT_BACKOFF_MILLIS: u64 = 500;

/// The longest wait before a retry, in milliseconds.
pub const LONGEST_BACKOFF_MILLIS: u64 = 0x7fff_ffff_ffff_ffff;

/// How often a job is tried again, and how long to wait before.
#[derive(Debug, Clone, Copy)]
pub struct RetryPolicy {
    /// How many attempts may follow the first one.
    pub retries: u32,
    /// How long to wait before the first retry, in milliseconds. The wait doubles each time.
    pub backoff_millis: u64,
}

impl Default for RetryPolicy {
    /// Every job is attempted once.
    fn default() -> (policy: RetryPolicy)
        ensures
            policy.retries == 0,
            policy.backoff_millis == DEFAULT_BACKOFF_MILLIS,
    {
        RetryPolicy { retries: 0, backoff_millis: DEFAULT_BACKOFF_MILLIS }
    }
}

/// The smaller of a wait and the longest one.
pub open spec fn bounded(millis: nat) -> nat {
    if millis <= LONGEST_BACKOFF_MILLIS {
        millis
    } else {
        LONGEST_BACKOFF_MILLIS as nat
    }
}

/// A wait that was doubled a number of times, up to the longest one.
pub open spec fn doubled(millis: nat, times: nat) -> nat
    decreases times,
{
    if times == 0 {
        bounded(millis)
    } else {
        bounded(2 * doubled(millis, (times - 1) as nat))
    }
}

proof fn lemma_doubling_ends(millis: nat, some: nat, more: nat)
    requires
        some <= more,
        doubled(millis, some) == 0 || doubled(millis, some) == LONGEST_BACKOFF_MILLIS,
    ensures
        doubled(millis, more) == doubled(millis, some),
    decreases more,
{
    if some < more {
        lemma_doubling_ends(millis, some, (more - 1) as nat);
    }
}

impl RetryPolicy {
    /// Attempts every job up to a number of times more, with the usual waits between.
    pub fn new(retries: u32) -> (policy: RetryPolicy)
        ensures
            policy.retries == retries,
            policy.backoff_millis == DEFAULT_BACKOFF_MILLIS,
    {
        RetryPolicy { retries, backoff_millis: DEFAULT_BACKOFF_MILLIS }
    }

    /// How long to wait after an attempt failed that was itself preceded by a number of failures.
    pub open spec fn wait(self, failures: nat) -> nat {
        doubled(self.backoff_millis as nat, failures)
    }

    /// How long to wait after an attempt failed that was itself preceded by a number of failures:
    /// twice as long as before, up to the longest wait.
    pub fn backoff(&self, failures: u32) -> (millis: u64)
        ensures
            millis == self.wait(failures as nat),
            millis <= LONGEST_BACKOFF_MILLIS,
    {
        let longest: u64 = LONGEST_BACKOFF_MILLIS;
        let mut millis: u64 = if self.backoff_millis < longest {
            self.backoff_millis
        } else {
            longest
        };
        let mut times: u32 = 0;
        while times < failures && 0 < millis && millis < longest
            invariant
                times <= failures,
                longest == LONGEST_BACKOFF_MILLIS,
                millis <= longest,
                millis == doubled(self.backoff_millis as nat, times as nat),
            decreases failures - times,
        {
            millis = if millis <= longest / 2 {
                millis * 2
            } else {
                longest
            };
            times = times + 1;
        }
        proof {
            if times < failures {
                lemma_doubling_ends(self.backoff_millis as nat, times as nat, failures as nat);
            }
        }
        millis
    }
}

/// What a worker is waiting for. A job at hand comes with the number of attempts at it that failed.
#[derive(Debug)]
pub enum WorkerState {
    /// For a job.
    Waiting,
    /// For the quota to permit the job.
    Acquiring(JobMessage, u32),
    /// For the job to be executed.
    Executing(JobMessage, u32),
    /// For the time of the next attempt at the job.
    Delaying(JobMessage, u32),
    /// For the job, which yielded a response, to be counted.
    Recording(JobMessage, JobResponse),
    /// For nothing: there will be no more jobs.
    Stopped,
}

/// The worker.
#[derive(Debug)]
pub struct Worker {
    pub retry: RetryPolicy,
    pub state: WorkerState,
}

/// What can happen to a worker.
#[derive(Debug)]
pub enum WorkerEvent {
    /// A job came in.
    Received(JobMessage, Timestamp),
    /// The queue was closed.
    Closed,
    /// The quota permits the job.
    Acquired,
    /// The job was executed.
    Executed(JobResult, Timestamp),
    /// The wait before the next attempt is over.
    Delayed,
    /// The job was counted, or the counters could not be stored.
    Recorded(Result<RateStatus, RateLimitError>, Timestamp),
}

/// What a worker wants done.
#[derive(Debug)]
pub enum WorkerAction {
    /// Wait for the next job.
    Receive,
    /// Tell the subscribers.
    Publish(TelemetryEvent),
    /// Wait for the quota.
    Acquire(NonZeroU32),
    /// Execute the job at hand.
    Execute,
    /// Wait for a number of milliseconds.
    Delay { millis: u64 },
    /// Count the requests of the job and store the counters.
    Record { weight: u32, now: Timestamp },
    /// Send the result to whoever submitted the job.
    Respond { id: JobId, result: JobResult },
}

impl WorkerEvent {
    /// Whether the moments are valid.
    pub open spec fn valid(self) -> bool {
        match self {
            WorkerEvent::Received(_, now) => now.valid(),
            WorkerEvent::Executed(_, now) => now.valid(),
            WorkerEvent::Recorded(_, now) => now.valid(),
            _ => true,
        }
    }
}

/// Whether an action reports on a job, and on no setback.
pub open spec fn publishes(
    action: WorkerAction,
    message: JobMessage,
    kind: TelemetryKind,
    now: Timestamp,
    status: Option<RateStatus>,
) -> bool {
    &&& action matches WorkerAction::Publish(event)
    &&& event.reports(message.id, message.request, kind, now, status)
    &&& event.setback is None
}

/// Whether an action reports on an attempt that failed: on the number of attempts that failed so
/// far, on the error, and on the time of the next attempt, which is a number of milliseconds away
/// if there is one.
pub open spec fn publishes_setback(
    action: WorkerAction,
    message: JobMessage,
    kind: TelemetryKind,
    now: Timestamp,
    attempts: nat,
    error: WorkerError,
    wait: Option<nat>,
) -> bool {
    &&& action matches WorkerAction::Publish(event)
    &&& event.reports(message.id, message.request, kind, now, None)
    &&& event.setback matches Some(setback)
    &&& setback.attempts == attempts
    &&& setback.error@ == error.text()
    &&& match wait {
        Some(millis) => clock::delayed(now, millis as int, setback.next_at),
        None => setback.next_at is None,
    }
}

/// The status that a successful job is reported with, if its requests could be counted.
pub open spec fn known(recorded: Result<RateStatus, RateLimitError>) -> Option<RateStatus> {
    match recorded {
        Ok(status) => Some(status),
        Err(_) => None,
    }
}

impl Worker {
    /// The same worker in another state.
    pub open spec fn with(self, state: WorkerState) -> Worker {
        Worker { retry: self.retry, state }
    }

    /// Whether an event takes a worker into the state `next` with the given actions. An event that
    /// it does not wait for changes nothing.
    pub open spec fn steps(
        self,
        event: WorkerEvent,
        next: Worker,
        actions: Seq<WorkerAction>,
    ) -> bool {
        match (self.state, event) {
            (WorkerState::Waiting, WorkerEvent::Received(message, now)) => {
                &&& next == self.with(WorkerState::Acquiring(message, 0))
                &&& actions.len() == 2
                &&& publishes(actions[0], message, TelemetryKind::Started, now, None)
                &&& actions[1] == WorkerAction::Acquire(message.weight)
            },
            (WorkerState::Waiting, WorkerEvent::Closed) => {
                &&& next == self.with(WorkerState::Stopped)
                &&& actions.len() == 0
            },
            (WorkerState::Acquiring(message, failures), WorkerEvent::Acquired) => {
                &&& next == self.with(WorkerState::Executing(message, failures))
                &&& actions == seq![WorkerAction::Execute]
            },
            (WorkerState::Executing(message, _), WorkerEvent::Executed(Ok(response), now)) => {
                &&& next == self.with(WorkerState::Recording(message, response))
                &&& actions == seq![WorkerAction::Record { weight: message.weight@, now }]
            },
            (WorkerState::Executing(message, failures), WorkerEvent::Executed(Err(e), now)) =>
                self.stumbles(message, failures, e, now, next, actions),
            (WorkerState::Delaying(message, failures), WorkerEvent::Delayed) => {
                &&& next == self.with(WorkerState::Acquiring(message, failures))
                &&& actions == seq![WorkerAction::Acquire(message.weight)]
            },
            (WorkerState::Recording(message, response), WorkerEvent::Recorded(recorded, now)) => {
                &&& next == self.with(WorkerState::Waiting)
                &&& actions.len() == 3
                &&& publishes(actions[0], message, TelemetryKind::Succeeded, now, known(recorded))
                &&& actions[1] == (WorkerAction::Respond { id: message.id, result: Ok(response) })
                &&& actions[2] is Receive
            },
            _ => next == self && actions.len() == 0,
        }
    }

    /// Whether an attempt that failed is handled as it should: the job is tried again after a wait
    /// if it may be, or else it is answered with the error.
    pub open spec fn stumbles(
        self,
        message: JobMessage,
        failures: u32,
        error: WorkerError,
        now: Timestamp,
        next: Worker,
        actions: Seq<WorkerAction>,
    ) -> bool {
        let attempts = failures as nat + 1;
        if failures < self.retry.retries {
            let wait = self.retry.wait(failures as nat);
            &&& next == self.with(WorkerState::Delaying(message, (failures + 1) as u32))
            &&& actions.len() == 2
            &&& publishes_setback(
                actions[0],
                message,
                TelemetryKind::Retrying,
                now,
                attempts,
                error,
                Some(wait),
            )
            &&& actions[1] matches WorkerAction::Delay { millis }
            &&& millis == wait
        } else {
            &&& next == self.with(WorkerState::Waiting)
            &&& actions.len() == 3
            &&& publishes_setback(
                actions[0],
                message,
                TelemetryKind::Failed,
                now,
                attempts,
                error,
                None,
            )
            &&& actions[1] == (WorkerAction::Respond { id: message.id, result: Err(error) })
            &&& actions[2] is Receive
        }
    }

    /// The jobs in the queue once an event was handled: a job that came in is begun, and one that
    /// was answered is gone.
    pub open spec fn queued(self, event: WorkerEvent, jobs: Seq<queue::QueueSnapshot>) -> Seq<
        queue::QueueSnapshot,
    > {
        match (self.state, event) {
            (WorkerState::Waiting, WorkerEvent::Received(message, now)) => queue::with_started(
                jobs,
                message.id,
                now,
            ),
            (WorkerState::Executing(message, failures), WorkerEvent::Executed(Err(_), _)) =>
                if failures < self.retry.retries {
                    jobs
                } else {
                    queue::without(jobs, message.id)
                },
            (WorkerState::Recording(message, _), WorkerEvent::Recorded(_, _)) => queue::without(
                jobs,
                message.id,
            ),
            _ => jobs,
        }
    }

    /// A worker that waits for jobs, the queue that it takes them from, and how many jobs may wait
    /// in it.
    pub fn spawn(capacity: Option<usize>, retry: RetryPolicy) -> (spawned: (
        Worker,
        QueueHandle,
        usize,
    ))
        ensures
            spawned.0.state is Waiting,
            spawned.0.retry == retry,
            spawned.1.wf(),
            spawned.1.sequence == 0,
            spawned.1.jobs@.len() == 0,
            spawned.2 == (match capacity {
                Some(n) => n,
                None => DEFAULT_QUEUE_CAPACITY,
            }),
    {
        let room: usize = match capacity {
            Some(n) => n,
            None => DEFAULT_QUEUE_CAPACITY,
        };
        (Worker { retry, state: WorkerState::Waiting }, QueueHandle::new(), room)
    }

    /// Handles an attempt that failed.
    fn stumble(
        retry: RetryPolicy,
        message: JobMessage,
        failures: u32,
        error: WorkerError,
        now: Timestamp,
        queue: &mut QueueHandle,
    ) -> (outcome: (Worker, Vec<WorkerAction>))
        requires
            now.valid(),
            old(queue).wf(),
        ensures
            (Worker { retry, state: WorkerState::Waiting }).stumbles(
                message,
                failures,
                error,
                now,
                outcome.0,
                outcome.1@,
            ),
            final(queue).wf(),
            final(queue).sequence == old(queue).sequence,
            final(queue).jobs@ == (if failures < retry.retries {
                old(queue).jobs@
            } else {
                queue::without(old(queue).jobs@, message.id)
            }),
    {
        let mut actions: Vec<WorkerAction> = Vec::new();
        let again = failures < retry.retries;
        let kind = if again {
            TelemetryKind::Retrying
        } else {
            TelemetryKind::Failed
        };
        let mut report = TelemetryEvent::about(message.id, &message.request, kind, now, None);
        let millis: u64 = retry.backoff(failures);
        let next_at = if again {
            add_millis(now, millis as i64)
        } else {
            None
        };
        report.setback = Some(
            Setback { attempts: failures as u64 + 1, error: error.message(), next_at },
        );
        actions.push(WorkerAction::Publish(report));
        let state = if again {
            actions.push(WorkerAction::Delay { millis });
            WorkerState::Delaying(message, failures + 1)
        } else {
            queue.finish(message.id);
            actions.push(WorkerAction::Respond { id: message.id, result: Err(error) });
            actions.push(WorkerAction::Receive);
            WorkerState::Waiting
        };
        (Worker { retry, state }, actions)
    }

    /// Handles an event.
    pub fn run(self, event: WorkerEvent, queue: &mut QueueHandle) -> (outcome: (
        Worker,
        Vec<WorkerAction>,
    ))
        requires
            event.valid(),
            old(queue).wf(),
        ensures
            self.steps(event, outcome.0, outcome.1@),
            final(queue).wf(),
            final(queue).sequence == old(queue).sequence,
            final(queue).jobs@ == self.queued(event, old(queue).jobs@),
    {
        let retry = self.retry;
        let mut actions: Vec<WorkerAction> = Vec::new();
        let state = match (self.state, event) {
            (WorkerState::Waiting, WorkerEvent::Received(message, now)) => {
                queue.start(message.id, now);
                let started = TelemetryEvent::about(
                    message.id,
                    &message.request,
                    TelemetryKind::Started,
                    now,
                    None,
                );
                actions.push(WorkerAction::Publish(started));
                actions.push(WorkerAction::Acquire(message.weight));
                WorkerState::Acquiring(message, 0)
            },
            (WorkerState::Waiting, WorkerEvent::Closed) => WorkerState::Stopped,
            (WorkerState::Acquiring(message, failures), WorkerEvent::Acquired) => {
                actions.push(WorkerAction::Execute);
                WorkerState::Executing(message, failures)
            },
            (WorkerState::Executing(message, failures), WorkerEvent::Executed(result, now)) => {
                match result {
                    Ok(response) => {
                        actions.push(WorkerAction::Record { weight: message.weight.get(), now });
                        WorkerState::Recording(message, response)
                    },
                    Err(e) => {
                        return Worker::stumble(retry, message, failures, e, now, queue);
                    },
                }
            },
            (WorkerState::Delaying(message, failures), WorkerEvent::Delayed) => {
                actions.push(WorkerAction::Acquire(message.weight));
                WorkerState::Acquiring(message, failures)
            },
            (WorkerState::Recording(message, response), WorkerEvent::Recorded(recorded, now)) => {
                let status = match recorded {
                    Ok(status) => Some(status),
                    Err(_) => None,
                };
                let succeeded = TelemetryEvent::about(
                    message.id,
                    &message.request,
                    TelemetryKind::Succeeded,
                    now,
                    status,
                );
                queue.finish(message.id);
                actions.push(WorkerAction::Publish(succeeded));
                actions.push(WorkerAction::Respond { id: message.id, result: Ok(response) });
                actions.push(WorkerAction::Receive);
                WorkerState::Waiting
            },
            (state, _) => state,
        };
        (Worker { retry, state }, actions)
    }

    /// How many attempts at the job at hand failed.
    pub open spec fn failures(self) -> nat {
        match self.state {
            WorkerState::Acquiring(_, failures) => failures as nat,
            WorkerState::Executing(_, failures) => failures as nat,
            WorkerState::Delaying(_, failures) => failures as nat,
            _ => 0,
        }
    }

    /// The job at hand, as long as it has no result.
    pub open spec fn at_hand(self) -> Option<JobMessage> {
        match self.state {
            WorkerState::Acquiring(message, _) => Some(message),
            WorkerState::Executing(message, _) => Some(message),
            WorkerState::Delaying(message, _) => Some(message),
            _ => None,
        }
    }
}

/// A job that succeeds at the first attempt is reported as started, waits for the quota, is
/// executed, counted with its weight, reported as succeeded and answered with its response, in this
/// order and each once. The worker then waits for the next job.
pub proof fn law_successful_job_is_counted_and_answered(
    worker: Worker,
    message: JobMessage,
    begun: Timestamp,
    response: JobResponse,
    done: Timestamp,
    recorded: Result<RateStatus, RateLimitError>,
    counted: Timestamp,
    acquiring: (Worker, Seq<WorkerAction>),
    executing: (Worker, Seq<WorkerAction>),
    recording: (Worker, Seq<WorkerAction>),
    waiting: (Worker, Seq<WorkerAction>),
)
    requires
        worker.state is Waiting,
        worker.steps(WorkerEvent::Received(message, begun), acquiring.0, acquiring.1),
        acquiring.0.steps(WorkerEvent::Acquired, executing.0, executing.1),
        executing.0.steps(WorkerEvent::Executed(Ok(response), done), recording.0, recording.1),
        recording.0.steps(WorkerEvent::Recorded(recorded, counted), waiting.0, waiting.1),
    ensures
        waiting.0 == worker,
        ({
            let actions = acquiring.1 + executing.1 + recording.1 + waiting.1;
            &&& actions.len() == 7
            &&& publishes(actions[0], message, TelemetryKind::Started, begun, None)
            &&& actions[1] == WorkerAction::Acquire(message.weight)
            &&& actions[2] is Execute
            &&& actions[3] == (WorkerAction::Record { weight: message.weight@, now: done })
            &&& publishes(
                actions[4],
                message,
                TelemetryKind::Succeeded,
                counted,
                known(recorded),
            )
            &&& actions[5] == (WorkerAction::Respond { id: message.id, result: Ok(response) })
            &&& actions[6] is Receive
        }),
{
}

/// A job whose last permitted attempt fails is reported as failed without a status, with the number
/// of its attempts and the error, and answered with that error. It is not counted. The worker then
/// waits for the next job.
pub proof fn law_failed_job_is_answered_but_not_counted(
    worker: Worker,
    message: JobMessage,
    error: WorkerError,
    done: Timestamp,
    waiting: Worker,
    actions: Seq<WorkerAction>,
)
    requires
        worker.state == WorkerState::Executing(message, worker.retry.retries),
        worker.steps(WorkerEvent::Executed(Err(error), done), waiting, actions),
    ensures
        waiting.state is Waiting,
        actions.len() == 3,
        publishes_setback(
            actions[0],
            message,
            TelemetryKind::Failed,
            done,
            worker.retry.retries as nat + 1,
            error,
            None,
        ),
        actions[1] == (WorkerAction::Respond { id: message.id, result: Err(error) }),
        actions[2] is Receive,
{
}

/// As long as an attempt may follow, a job that fails is reported as being retried, with the number
/// of its attempts, the error and the time of the next one, and is not answered: after a wait, and
/// once the quota permits it, the same job is executed again.
pub proof fn law_failed_job_is_tried_again(
    worker: Worker,
    message: JobMessage,
    failures: u32,
    error: WorkerError,
    done: Timestamp,
    delaying: (Worker, Seq<WorkerAction>),
    acquiring: (Worker, Seq<WorkerAction>),
    executing: (Worker, Seq<WorkerAction>),
)
    requires
        worker.state == WorkerState::Executing(message, failures),
        failures < worker.retry.retries,
        worker.steps(WorkerEvent::Executed(Err(error), done), delaying.0, delaying.1),
        delaying.0.steps(WorkerEvent::Delayed, acquiring.0, acquiring.1),
        acquiring.0.steps(WorkerEvent::Acquired, executing.0, executing.1),
    ensures
        executing.0.state == WorkerState::Executing(message, (failures + 1) as u32),
        executing.0.retry == worker.retry,
        ({
            let actions = delaying.1 + acquiring.1 + executing.1;
            let wait = worker.retry.wait(failures as nat);
            &&& actions.len() == 4
            &&& publishes_setback(
                actions[0],
                message,
                TelemetryKind::Retrying,
                done,
                failures as nat + 1,
                error,
                Some(wait),
            )
            &&& actions[1] matches WorkerAction::Delay { millis } && millis == wait
            &&& actions[2] == WorkerAction::Acquire(message.weight)
            &&& actions[3] is Execute
        }),
{
}

/// The waits between attempts double, up to the longest one.
pub proof fn law_waits_double(policy: RetryPolicy, failures: nat)
    ensures
        policy.wait(0) == bounded(policy.backoff_millis as nat),
        policy.wait(failures + 1) == bounded(2 * policy.wait(failures)),
{
}

/// Attempts are counted: none has failed when a job comes in, each failure that is followed by
/// another attempt adds one, and nothing else changes the count as long as the job is at hand.
pub proof fn law_failures_are_counted(
    worker: Worker,
    event: WorkerEvent,
    next: Worker,
    actions: Seq<WorkerAction>,
)
    requires
        worker.steps(event, next, actions),
        next.at_hand() is Some,
    ensures
        worker.at_hand() is None ==> next.failures() == 0,
        worker.at_hand() matches Some(message) ==> {
            &&& next.at_hand() == Some(message)
            &&& next.failures() == worker.failures() + (if worker.state is Executing && (
            event matches WorkerEvent::Executed(Err(_), _)) {
                1nat
            } else {
                0nat
            })
        },
{
}

/// An error is answered only once every permitted attempt has failed.
pub proof fn law_error_is_answered_after_the_last_attempt(
    worker: Worker,
    event: WorkerEvent,
    next: Worker,
    actions: Seq<WorkerAction>,
    i: int,
)
    requires
        worker.steps(event, next, actions),
        0 <= i < actions.len(),
        actions[i] matches WorkerAction::Respond { result: Err(_), .. },
    ensures
        event matches WorkerEvent::Executed(Err(_), _),
        worker.failures() >= worker.retry.retries,
{
}

/// A worker takes one job at a time: one that comes in while another is at hand changes nothing,
/// neither in the worker nor in the queue.
pub proof fn law_one_job_at_a_time(
    worker: Worker,
    message: JobMessage,
    now: Timestamp,
    jobs: Seq<queue::QueueSnapshot>,
    next: Worker,
    actions: Seq<WorkerAction>,
)
    requires
        worker.state !is Waiting,
        worker.steps(WorkerEvent::Received(message, now), next, actions),
    ensures
        next == worker,
        actions.len() == 0,
        worker.queued(WorkerEvent::Received(message, now), jobs) == jobs,
{
}

/// A job stays in the queue from its submission until it is answered: until then every event
/// leaves it there, and with its answer it is gone.
pub proof fn law_job_is_queued_until_answered(
    worker: Worker,
    event: WorkerEvent,
    next: Worker,
    actions: Seq<WorkerAction>,
    jobs: Seq<queue::QueueSnapshot>,
    id: JobId,
)
    requires
        worker.steps(event, next, actions),
        queue::has_job(jobs, id),
    ensures
        ({
            let answered = exists|i: int|
                #![trigger actions[i]]
                0 <= i < actions.len() && (actions[i] matches WorkerAction::Respond { id: a, .. }
                    && a == id);
            answered <==> !queue::has_job(worker.queued(event, jobs), id)
        }),
{
    let after = worker.queued(event, jobs);
    let at = choose|i: int| 0 <= i < jobs.len() && (#[trigger] jobs[i]).id == id;
    match (worker.state, event) {
        (WorkerState::Waiting, WorkerEvent::Received(message, now)) => {
            assert(after[at].id == id);
        },
        (WorkerState::Executing(message, failures), WorkerEvent::Executed(Err(e), now)) => {
            if failures >= worker.retry.retries {
                queue::lemma_without(jobs, message.id, id);
                assert(actions[1] matches WorkerAction::Respond { id: a, .. } && a == message.id);
            }
        },
        (WorkerState::Recording(message, response), WorkerEvent::Recorded(recorded, now)) => {
            queue::lemma_without(jobs, message.id, id);
            assert(actions[1] matches WorkerAction::Respond { id: a, .. } && a == message.id);
        },
        _ => {},
    }
}

proof fn lemma_doubled_is_a_power(millis: nat, times: nat)
    ensures
        doubled(millis, times) == (if millis * vstd::arithmetic::power2::pow2(times) <= LONGEST_BACKOFF_MILLIS {
            (millis * vstd::arithmetic::power2::pow2(times)) as nat
        } else {
            LONGEST_BACKOFF_MILLIS as nat
        }),
    decreases times,
{
    if times == 0 {
        vstd::arithmetic::power2::lemma2_to64();
        assert(millis * vstd::arithmetic::power2::pow2(times) == millis) by (nonlinear_arith)
            requires
                vstd::arithmetic::power2::pow2(times) == 1,
        ;
    } else {
        let less = (times - 1) as nat;
        lemma_doubled_is_a_power(millis, less);
        vstd::arithmetic::power2::lemma_pow2_unfold(times);
        let p = vstd::arithmetic::power2::pow2(less);
        assert(vstd::arithmetic::power2::pow2(times) == 2 * p);
        assert(millis * vstd::arithmetic::power2::pow2(times) == 2 * (millis * p)) by (nonlinear_arith)
            requires
                vstd::arithmetic::power2::pow2(times) == 2 * p,
        ;
    }
}

/// The wait before an attempt is the first wait, doubled for every failure before the last one, and
/// never longer than the longest one.
pub proof fn law_wait_is_a_power_of_two(policy: RetryPolicy, failures: nat)
    ensures
        ({
            let wait = policy.backoff_millis * vstd::arithmetic::power2::pow2(failures);
            &&& wait <= 0x7fff_ffff_ffff_ffff ==> policy.wait(failures) == wait
            &&& wait > 0x7fff_ffff_ffff_ffff ==> policy.wait(failures) == 0x7fff_ffff_ffff_ffff
        }),
{
    lemma_doubled_is_a_power(policy.backoff_millis as nat, failures);
}

/// A report that something happened to a job tells of that job and of no setback, and a report on an
/// attempt that failed tells how many have failed, why, and when the next one is due, if there is
/// one.
pub proof fn law_published_reports_tell_of_their_job(
    action: WorkerAction,
    message: JobMessage,
    kind: TelemetryKind,
    now: Timestamp,
    status: Option<RateStatus>,
    attempts: nat,
    error: WorkerError,
    wait: Option<nat>,
)
    ensures
        publishes(action, message, kind, now, status) ==> {
            &&& action matches WorkerAction::Publish(event)
            &&& event.job_id == message.id
            &&& event.account@ == message.request.account@
            &&& event.description@ == message.request.title()
            &&& event.kind == kind
            &&& event.timestamp == now
            &&& event.status == status
            &&& event.setback is None
        },
        publishes_setback(action, message, kind, now, attempts, error, wait) ==> {
            &&& action matches WorkerAction::Publish(event)
            &&& event.job_id == message.id
            &&& event.account@ == message.request.account@
            &&& event.description@ == message.request.title()
            &&& event.kind == kind
            &&& event.timestamp == now
            &&& event.status is None
            &&& event.setback matches Some(setback)
            &&& setback.attempts == attempts
            &&& setback.error@ == error.text()
            &&& wait is None ==> setback.next_at is None
            &&& wait is Some && setback.next_at is Some ==> setback.next_at->Some_0.instant()
                == now.instant() + wait->Some_0 * 1_000_000
        },
{
}

/// A job is counted once for each success, with its weight, and never for a failure.
pub proof fn law_only_successes_are_counted(
    worker: Worker,
    event: WorkerEvent,
    next: Worker,
    actions: Seq<WorkerAction>,
    i: int,
)
    requires
        worker.steps(event, next, actions),
        0 <= i < actions.len(),
        actions[i] is Record,
    ensures
        worker.state is Executing,
        event matches WorkerEvent::Executed(Ok(_), _),
        actions.len() == 1,
        actions[i]->weight == worker.at_hand()->Some_0.weight@,
        actions[i]->Record_now == event->Executed_1,
{
}

/// A job is answered with what its execution yielded, to whoever submitted it, and the success of a
/// job is reported with the budget if it could be counted and without it if not.
pub proof fn law_answer_is_what_execution_yielded(
    worker: Worker,
    message: JobMessage,
    response: JobResponse,
    recorded: Result<RateStatus, RateLimitError>,
    now: Timestamp,
    next: Worker,
    actions: Seq<WorkerAction>,
)
    requires
        worker.state == WorkerState::Recording(message, response),
        worker.steps(WorkerEvent::Recorded(recorded, now), next, actions),
    ensures
        next.state is Waiting,
        next.retry == worker.retry,
        actions[1] matches WorkerAction::Respond { id, result } && id == message.id && (
        result matches Ok(given) && given == response),
        actions[0] matches WorkerAction::Publish(report) && {
            &&& report.kind == TelemetryKind::Succeeded
            &&& report.job_id == message.id
            &&& report.status == (match recorded {
                Ok(status) => Some(status),
                Err(_) => None,
            })
        },
{
}

/// The jobs of a queue change only when a job is begun or answered: a job that comes in is begun, and
/// a job that is answered leaves.
pub proof fn law_queue_follows_the_worker(
    worker: Worker,
    event: WorkerEvent,
    jobs: Seq<queue::QueueSnapshot>,
    next: Worker,
    actions: Seq<WorkerAction>,
)
    requires
        worker.steps(event, next, actions),
    ensures
        worker.state is Waiting ==> (event matches WorkerEvent::Received(message, now)
            ==> worker.queued(event, jobs) == queue::with_started(jobs, message.id, now)),
        (exists|i: int| 0 <= i < actions.len() && (#[trigger] actions[i]) is Respond) ==> (
        actions[1] matches WorkerAction::Respond { id, .. } && worker.queued(event, jobs)
            == queue::without(jobs, id)),
        !(worker.state is Waiting && event is Received) && (forall|i: int|
            0 <= i < actions.len() ==> (#[trigger] actions[i]) !is Respond) ==> worker.queued(
            event,
            jobs,
        ) == jobs,
{
    match (worker.state, event) {
        (WorkerState::Executing(message, failures), WorkerEvent::Executed(Err(e), now)) => {
            if failures >= worker.retry.retries {
                assert(actions[1] is Respond);
            }
        },
        (WorkerState::Recording(message, response), WorkerEvent::Recorded(recorded, now)) => {
            assert(actions[1] is Respond);
        },
        _ => {},
    }
}

} // verus!
