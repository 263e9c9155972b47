//! The job queue: what is waiting, what is being worked on, and what is told about it.

use crate::client::{
    AggregateQuery, AggregateResponse, BreakdownQuery, BreakdownResponse, CreateSiteRequest,
    RealtimeVisitorsResponse, ResetSiteStatsRequest, SiteSummary, TimeseriesQuery,
    TimeseriesResponse, UpdateSiteRequest,
};
use crate::clock::Timestamp;

use crate::nonzero::NonZeroU32;
use crate::rate_limit::{RateLimitError, RateStatus};
use crate::text;
use vstd::prelude::*;
use vstd::string::*;

pub mod worker;

verus! {

/// Jobs that may wait in the queue, unless configured otherwise.
pub const DEFAULT_QUEUE_CAPACITY: usize = 128;

/// Telemetry events that are kept for slow subscribers.
pub const TELEMETRY_CAPACITY: usize = 256;

/// Number of a job. The first one submitted has number one.
pub type JobId = u64;

/// What comes of a job.
pub type JobResult = Result<JobResponse, WorkerError>;

/// A job to be done for an account.
#[derive(Debug)]
pub struct JobRequest {
    pub account: String,
    pub kind: JobKind,
}

/// What a job does.
#[derive(Debug)]
pub enum JobKind {
    ListSites,
    StatsAggregate { query: Box<AggregateQuery> },
    StatsTimeseries { query: Box<TimeseriesQuery> },
    StatsBreakdown { query: Box<BreakdownQuery> },
    StatsRealtime { site_id: String },
    SiteCreate { request: Box<CreateSiteRequest> },
    SiteUpdate { site_id: String, request: Box<UpdateSiteRequest> },
    SiteReset { site_id: String, request: Box<ResetSiteStatsRequest> },
    SiteDelete { site_id: String },
    EventSend { event: serde_json::Value },
    EventsImport { events: Vec<serde_json::Value> },
    Custom { label: String },
}

/// What a job yields.
#[derive(Debug)]
pub enum JobResponse {
    Sites(Vec<SiteSummary>),
    StatsAggregate(AggregateResponse),
    StatsTimeseries(TimeseriesResponse),
    StatsBreakdown(BreakdownResponse),
    StatsRealtime(RealtimeVisitorsResponse),
    SiteCreated(SiteSummary),
    SiteUpdated(SiteSummary),
    SiteReset,
    SiteDeleted,
    EventAck,
    EventsProcessed { processed: usize },
    Acknowledged,
    Custom(serde_json::Value),
}

/// Errors of the worker.
#[derive(Debug)]
pub enum WorkerError {
    QueueClosed,
    RateLimit(RateLimitError),
    Execution(String),
}

impl WorkerError {
    /// The message shown to the user.
    pub open spec fn text(self) -> Seq<char> {
        match self {
            WorkerError::QueueClosed => "queue closed"@,
            WorkerError::RateLimit(e) => "rate limiter error: "@ + e.text(),
            WorkerError::Execution(e) => "execution error: "@ + e@,
        }
    }

    /// Renders the message shown to the user.
    pub fn message(&self) -> (text: String)
        ensures
            text@ == self.text(),
    {
        match self {
            WorkerError::QueueClosed => "queue closed".to_owned(),
            WorkerError::RateLimit(e) =>
                "rate limiter error: ".to_owned().concat(e.message().as_str()),
            WorkerError::Execution(e) => "execution error: ".to_owned().concat(e.as_str()),
        }
    }
}

/// How a list of strings is written by the debug notation of the standard library.
pub uninterp spec fn debugged(items: Seq<Seq<char>>) -> Seq<char>;

/// Formats a list of strings in the debug notation of the standard library, which is named, not
/// described.
#[verifier::external_body]
fn debug_text(items: &Vec<String>) -> (notation: String)
    ensures
        notation@ == debugged(text::views(items@)),
{
    format!("{:?}", items)
}

impl JobRequest {
    /// What the job is called.
    pub open spec fn title(self) -> Seq<char> {
        match self.kind {
            JobKind::ListSites => "List sites for "@ + self.account@,
            JobKind::StatsAggregate { query } => stats_title(
                "Aggregate stats for "@,
                self.account@,
                query.metrics@,
            ),
            JobKind::StatsTimeseries { query } => stats_title(
                "Timeseries stats for "@,
                self.account@,
                query.metrics@,
            ),
            JobKind::StatsBreakdown { query } => stats_title(
                "Breakdown stats for "@,
                self.account@,
                query.metrics@,
            ),
            JobKind::StatsRealtime { site_id } => site_title(
                "Realtime visitors of "@,
                site_id@,
                self.account@,
            ),
            JobKind::SiteCreate { request } => site_title(
                "Create site "@,
                request.domain@,
                self.account@,
            ),
            JobKind::SiteUpdate { site_id, .. } => site_title(
                "Update site "@,
                site_id@,
                self.account@,
            ),
            JobKind::SiteReset { site_id, .. } => site_title(
                "Reset site "@,
                site_id@,
                self.account@,
            ),
            JobKind::SiteDelete { site_id } => site_title("Delete site "@, site_id@, self.account@),
            JobKind::EventSend { .. } => "Send event for "@ + self.account@,
            JobKind::EventsImport { events } => "Import "@ + text::decimal(events@.len())
                + " events for "@ + self.account@,
            JobKind::Custom { label } => label@,
        }
    }

    /// Describes the job.
    pub fn description(&self) -> (title: String)
        ensures
            title@ == self.title(),
    {
        let account = self.account.as_str();
        match &self.kind {
            JobKind::ListSites => "List sites for ".to_owned().concat(account),
            JobKind::StatsAggregate { query } => describe_stats(
                "Aggregate stats for ",
                account,
                &query.metrics,
            ),
            JobKind::StatsTimeseries { query } => describe_stats(
                "Timeseries stats for ",
                account,
                &query.metrics,
            ),
            JobKind::StatsBreakdown { query } => describe_stats(
                "Breakdown stats for ",
                account,
                &query.metrics,
            ),
            JobKind::StatsRealtime { site_id } => describe_site(
                "Realtime visitors of ",
                site_id.as_str(),
                account,
            ),
            JobKind::SiteCreate { request } => describe_site(
                "Create site ",
                request.domain.as_str(),
                account,
            ),
            JobKind::SiteUpdate { site_id, .. } => describe_site(
                "Update site ",
                site_id.as_str(),
                account,
            ),
            JobKind::SiteReset { site_id, .. } => describe_site(
                "Reset site ",
                site_id.as_str(),
                account,
            ),
            JobKind::SiteDelete { site_id } => describe_site(
                "Delete site ",
                site_id.as_str(),
                account,
            ),
            JobKind::EventSend { .. } => "Send event for ".to_owned().concat(account),
            JobKind::EventsImport { events } => "Import ".to_owned().concat(
                text::decimal_text(events.len() as u64).as_str(),
            ).concat(" events for ").concat(account),
            JobKind::Custom { label } => label.clone(),
        }
    }
}

/// What a statistics job is called: the account, and the metrics in debug notation.
pub open spec fn stats_title(what: Seq<char>, account: Seq<char>, metrics: Seq<String>) -> Seq<
    char,
> {
    what + account + " ("@ + debugged(text::views(metrics)) + ")"@
}

/// What a job on a site is called.
pub open spec fn site_title(what: Seq<char>, site: Seq<char>, account: Seq<char>) -> Seq<char> {
    what + site + " for "@ + account
}

fn describe_stats(what: &str, account: &str, metrics: &Vec<String>) -> (title: String)
    ensures
        title@ == stats_title(what@, account@, metrics@),
{
    what.to_owned().concat(account).concat(" (").concat(debug_text(metrics).as_str()).concat(")")
}

fn describe_site(what: &str, site: &str, account: &str) -> (title: String)
    ensures
        title@ == site_title(what@, site@, account@),
{
    what.to_owned().concat(site).concat(" for ").concat(account)
}

/// What happened to a job.
#[derive(Debug, Clone, Copy, PartialEq, Eq, Structural)]
pub enum TelemetryKind {
    Enqueued,
    Started,
    /// An attempt failed, and there will be another one.
    Retrying,
    Succeeded,
    Failed,
}

/// What is told of an attempt that failed.
#[derive(Debug, Clone)]
pub struct Setback {
    /// How many attempts failed so far.
    pub attempts: u64,
    /// What went wrong.
    pub error: String,
    /// When the next attempt is due, if there is one and the calendar reaches that far.
    pub next_at: Option<Timestamp>,
}

/// A report on a job.
#[derive(Debug, Clone)]
pub struct TelemetryEvent {
    pub job_id: JobId,
    pub account: String,
    pub description: String,
    pub kind: TelemetryKind,
    pub timestamp: Timestamp,
    pub status: Option<RateStatus>,
    pub setback: Option<Setback>,
}

impl TelemetryEvent {
    /// Whether this is the report on a given job.
    pub open spec fn reports(
        self,
        id: JobId,
        request: JobRequest,
        kind: TelemetryKind,
        now: Timestamp,
        status: Option<RateStatus>,
    ) -> bool {
        &&& self.job_id == id
        &&& self.account@ == request.account@
        &&& self.description@ == request.title()
        &&& self.kind == kind
        &&& self.timestamp == now
        &&& self.status == status
    }

    /// The report on a job, without a setback.
    pub fn about(
        id: JobId,
        request: &JobRequest,
        kind: TelemetryKind,
        now: Timestamp,
        status: Option<RateStatus>,
    ) -> (event: TelemetryEvent)
        ensures
            event.reports(id, *request, kind, now, status),
            event.setback is None,
    {
        TelemetryEvent {
            job_id: id,
            account: request.account.clone(),
            description: request.description(),
            kind,
            timestamp: now,
            status,
            setback: None,
        }
    }
}

/// Whether a job still waits or is being worked on.
#[derive(Debug, Clone, Copy, PartialEq, Eq, Structural)]
pub enum QueueJobState {
    Pending,
    InFlight,
}

/// A job in the queue.
#[derive(Debug)]
pub struct QueueSnapshot {
    pub id: JobId,
    pub account: String,
    pub description: String,
    pub state: QueueJobState,
    pub enqueued_at: Timestamp,
    pub started_at: Option<Timestamp>,
}

impl Clone for QueueSnapshot {
    fn clone(&self) -> (copy: QueueSnapshot)
        ensures
            copy == *self,
    {
        QueueSnapshot {
            id: self.id,
            account: self.account.clone(),
            description: self.description.clone(),
            state: self.state,
            enqueued_at: self.enqueued_at,
            started_at: self.started_at,
        }
    }
}

impl QueueSnapshot {
    /// Whether the moments are valid, and a start is noted exactly for a job that is worked on.
    pub open spec fn valid(self) -> bool {
        &&& self.enqueued_at.valid()
        &&& self.started_at matches Some(t) ==> t.valid()
        &&& self.state == QueueJobState::InFlight <==> self.started_at is Some
    }

    /// The same job once work on it has begun.
    pub open spec fn begun(self, now: Timestamp) -> QueueSnapshot {
        QueueSnapshot { state: QueueJobState::InFlight, started_at: Some(now), ..self }
    }
}

/// Whether a list of jobs is numbered in ascending order up to `last`.
pub open spec fn numbered(jobs: Seq<QueueSnapshot>, last: u64) -> bool {
    &&& forall|i: int, j: int|
        0 <= i < j < jobs.len() ==> (#[trigger] jobs[i]).id < (#[trigger] jobs[j]).id
    &&& forall|i: int|
        #![trigger jobs[i]]
        0 <= i < jobs.len() ==> 0 < jobs[i].id <= last && jobs[i].valid()
}

/// The jobs once work on one of them has begun.
pub open spec fn with_started(jobs: Seq<QueueSnapshot>, id: JobId, now: Timestamp) -> Seq<
    QueueSnapshot,
> {
    jobs.map_values(|job: QueueSnapshot| if job.id == id { job.begun(now) } else { job })
}

/// The jobs without one of them.
pub open spec fn without(jobs: Seq<QueueSnapshot>, id: JobId) -> Seq<QueueSnapshot> {
    jobs.filter(|job: QueueSnapshot| job.id != id)
}

/// Whether a list of jobs holds one of the given number.
pub open spec fn has_job(jobs: Seq<QueueSnapshot>, id: JobId) -> bool {
    exists|i: int| 0 <= i < jobs.len() && (#[trigger] jobs[i]).id == id
}

/// The queue: the jobs that are waiting or being worked on, in the order of their submission.
#[derive(Debug)]
pub struct QueueHandle {
    /// How many jobs were submitted so far.
    pub sequence: u64,
    pub jobs: Vec<QueueSnapshot>,
}

/// A job on its way to the worker.
#[derive(Debug)]
pub struct JobMessage {
    pub id: JobId,
    pub request: JobRequest,
    pub weight: NonZeroU32,
    pub enqueued_at: Timestamp,
}

/// The claim to the result of a job.
#[derive(Debug)]
pub struct JobTicket {
    id: JobId,
}

impl View for JobTicket {
    type V = JobId;

    closed spec fn view(&self) -> JobId {
        self.id
    }
}

impl JobTicket {
    /// The number of the job.
    pub fn id(&self) -> (id: JobId)
        ensures
            id == self@,
    {
        self.id
    }

    /// The result of the job, given what the worker sent, if it sent anything.
    pub fn await_result(self, received: Option<JobResult>) -> (result: JobResult)
        ensures
            match received {
                Some(sent) => result == sent,
                None => result matches Err(WorkerError::QueueClosed),
            },
    {
        match received {
            Some(sent) => sent,
            None => Err(WorkerError::QueueClosed),
        }
    }
}

/// What comes of a submission: the claim to the result, the message for the worker, and the report
/// to be published.
#[derive(Debug)]
pub struct Submission {
    pub ticket: JobTicket,
    pub message: JobMessage,
    pub telemetry: TelemetryEvent,
}

impl QueueHandle {
    /// Whether the jobs are numbered in the order of their submission.
    pub open spec fn wf(self) -> bool {
        numbered(self.jobs@, self.sequence)
    }

    /// A queue without jobs.
    pub fn new() -> (queue: QueueHandle)
        ensures
            queue.wf(),
            queue.sequence == 0,
            queue.jobs@.len() == 0,
    {
        QueueHandle { sequence: 0, jobs: Vec::new() }
    }

    /// Whether this is what a queue is after it took a job in: the job has the next number and comes
    /// last, and nothing else changes. The claim, the message and the report are those of the job.
    pub open spec fn takes_in(
        self,
        before: QueueHandle,
        request: JobRequest,
        weight: NonZeroU32,
        now: Timestamp,
        submission: Submission,
    ) -> bool {
        &&& self.sequence == before.sequence + 1
        &&& self.jobs@.len() == before.jobs@.len() + 1
        &&& self.jobs@.drop_last() == before.jobs@
        &&& self.jobs@.last().id == self.sequence
        &&& self.jobs@.last().account@ == request.account@
        &&& self.jobs@.last().description@ == request.title()
        &&& self.jobs@.last().state == QueueJobState::Pending
        &&& self.jobs@.last().enqueued_at == now
        &&& self.jobs@.last().started_at is None
        &&& submission.ticket@ == self.sequence
        &&& submission.message == (JobMessage {
            id: self.sequence,
            request,
            weight,
            enqueued_at: now,
        })
        &&& submission.telemetry.reports(
            self.sequence,
            request,
            TelemetryKind::Enqueued,
            now,
            None,
        )
        &&& submission.telemetry.setback is None
    }

    /// Takes a job in and numbers it.
    pub fn submit(&mut self, request: JobRequest, weight: NonZeroU32, now: Timestamp) -> (submission:
        Submission)
        requires
            old(self).wf(),
            old(self).sequence < u64::MAX,
            now.valid(),
        ensures
            final(self).wf(),
            final(self).takes_in(*old(self), request, weight, now, submission),
    {
        let id: JobId = self.sequence + 1;
        let telemetry = TelemetryEvent::about(id, &request, TelemetryKind::Enqueued, now, None);
        self.sequence = id;
        self.jobs.push(
            QueueSnapshot {
                id,
                account: request.account.clone(),
                description: request.description(),
                state: QueueJobState::Pending,
                enqueued_at: now,
                started_at: None,
            },
        );
        assert(self.jobs@.drop_last() =~= old(self).jobs@);
        Submission {
            ticket: JobTicket { id },
            message: JobMessage { id, request, weight, enqueued_at: now },
            telemetry,
        }
    }

    /// Takes a job back that the worker no longer accepts.
    pub fn refuse(&mut self, id: JobId) -> (error: WorkerError)
        requires
            old(self).wf(),
        ensures
            final(self).wf(),
            final(self).sequence == old(self).sequence,
            final(self).jobs@ == without(old(self).jobs@, id),
            error is QueueClosed,
    {
        self.finish(id);
        WorkerError::QueueClosed
    }

    /// The position of a job, or the number of jobs if it is not in the queue.
    fn position(&self, id: JobId) -> (at: usize)
        ensures
            at <= self.jobs@.len(),
            at < self.jobs@.len() ==> self.jobs@[at as int].id == id,
            at == self.jobs@.len() ==> !has_job(self.jobs@, id),
    {
        let mut i: usize = 0;
        while i < self.jobs.len()
            invariant
                i <= self.jobs@.len(),
                forall|k: int| #![trigger self.jobs@[k]] 0 <= k < i ==> self.jobs@[k].id != id,
            decreases self.jobs@.len() - i,
        {
            if self.jobs[i].id == id {
                return i;
            }
            i = i + 1;
        }
        i
    }

    /// Notes that work on a job has begun.
    pub fn start(&mut self, id: JobId, now: Timestamp)
        requires
            old(self).wf(),
            now.valid(),
        ensures
            final(self).wf(),
            final(self).sequence == old(self).sequence,
            final(self).jobs@ == with_started(old(self).jobs@, id, now),
    {
        let at: usize = self.position(id);
        let ghost before = self.jobs@;
        if at < self.jobs.len() {
            let job = self.jobs[at].clone();
            self.jobs.set(
                at,
                QueueSnapshot { state: QueueJobState::InFlight, started_at: Some(now), ..job },
            );
        }
        proof {
            assert forall|k: int| 0 <= k < before.len() implies #[trigger] self.jobs@[k]
                == with_started(before, id, now)[k] by {
                if k != at && at < before.len() {
                    assert(before[k].id != before[at as int].id);
                }
            }
            assert(self.jobs@ =~= with_started(before, id, now));
        }
    }

    /// Drops a job that is done.
    pub fn finish(&mut self, id: JobId)
        requires
            old(self).wf(),
        ensures
            final(self).wf(),
            final(self).sequence == old(self).sequence,
            !has_job(final(self).jobs@, id),
            final(self).jobs@ == without(old(self).jobs@, id),
    {
        let at: usize = self.position(id);
        let ghost before = self.jobs@;
        let ghost kept = |job: QueueSnapshot| job.id != id;
        if at < self.jobs.len() {
            let done = self.jobs.remove(at);
        }
        proof {
            if at < before.len() {
                assert forall|k: int| 0 <= k < before.len() && k != at implies kept(
                    #[trigger] before[k],
                ) by {
                    assert(before[k].id != before[at as int].id);
                }
                lemma_filter_one(before, kept, at as int);
            } else {
                lemma_filter_all(before, kept);
            }
            assert forall|k: int| 0 <= k < self.jobs@.len() implies (
            #[trigger] self.jobs@[k]).id != id by {
                if at < before.len() {
                    let x = if k < at { k } else { k + 1 };
                    assert(self.jobs@[k] == before[x]);
                    assert(before[x].id != before[at as int].id);
                }
            }
        }
    }

    /// The jobs in the queue.
    pub fn snapshot(&self) -> (jobs: Vec<QueueSnapshot>)
        ensures
            jobs@ == self.jobs@,
    {
        let mut jobs: Vec<QueueSnapshot> = Vec::new();
        let mut i: usize = 0;
        while i < self.jobs.len()
            invariant
                i <= self.jobs@.len(),
                jobs@ == self.jobs@.take(i as int),
            decreases self.jobs@.len() - i,
        {
            jobs.push(self.jobs[i].clone());
            i = i + 1;
            assert(jobs@ =~= self.jobs@.take(i as int));
        }
        assert(self.jobs@.take(i as int) =~= self.jobs@);
        jobs
    }

    /// Whether nothing is waiting or being worked on.
    pub fn is_idle(&self) -> (idle: bool)
        ensures
            idle == (self.jobs@.len() == 0),
    {
        self.jobs.len() == 0
    }
}

/// Filtering keeps a list in which every element passes.
proof fn lemma_filter_all<A>(list: Seq<A>, kept: spec_fn(A) -> bool)
    requires
        forall|i: int| 0 <= i < list.len() ==> kept(#[trigger] list[i]),
    ensures
        list.filter(kept) == list,
    decreases list.len(),
{
    reveal(Seq::filter);
    if list.len() > 0 {
        assert forall|i: int| 0 <= i < list.drop_last().len() implies kept(
            #[trigger] list.drop_last()[i],
        ) by {
            assert(list.drop_last()[i] == list[i]);
        }
        lemma_filter_all(list.drop_last(), kept);
        assert(kept(list[list.len() - 1]));
        assert(list =~= list.drop_last().push(list.last()));
    }
}

/// Filtering drops the one element that does not pass.
proof fn lemma_filter_one<A>(list: Seq<A>, kept: spec_fn(A) -> bool, at: int)
    requires
        0 <= at < list.len(),
        !kept(list[at]),
        forall|i: int| 0 <= i < list.len() && i != at ==> kept(#[trigger] list[i]),
    ensures
        list.filter(kept) == list.remove(at),
    decreases list.len(),
{
    reveal(Seq::filter);
    let init = list.drop_last();
    if at == list.len() - 1 {
        lemma_filter_all(init, kept);
        assert(list.remove(at) =~= init);
    } else {
        lemma_filter_one(init, kept, at);
        assert(kept(list[list.len() - 1]));
        assert(list.remove(at) =~= init.remove(at).push(list.last()));
    }
}

/// A job that was taken in, begun and finished leaves the queue as it was before: no other job is
/// lost, changed or moved.
pub proof fn law_finished_job_leaves_no_trace(
    jobs: Seq<QueueSnapshot>,
    sequence: u64,
    job: QueueSnapshot,
    now: Timestamp,
)
    requires
        numbered(jobs, sequence),
        job.id > sequence,
    ensures
        without(with_started(jobs.push(job), job.id, now), job.id) == jobs,
{
    let started = with_started(jobs.push(job), job.id, now);
    let kept = |j: QueueSnapshot| j.id != job.id;
    assert(started =~= jobs.push(job.begun(now)));
    assert forall|k: int| 0 <= k < started.len() && k != jobs.len() implies kept(
        #[trigger] started[k],
    ) by {
        assert(started[k] == jobs[k]);
    }
    lemma_filter_one(started, kept, jobs.len() as int);
    assert(started.remove(jobs.len() as int) =~= jobs);
}

/// Finishing one job keeps every other job and their order.
pub proof fn law_finishing_keeps_the_others(
    jobs: Seq<QueueSnapshot>,
    sequence: u64,
    id: JobId,
    at: int,
)
    requires
        numbered(jobs, sequence),
        0 <= at < jobs.len(),
        jobs[at].id == id,
    ensures
        without(jobs, id) == jobs.remove(at),
        numbered(without(jobs, id), sequence),
{
    let kept = |j: QueueSnapshot| j.id != id;
    assert forall|k: int| 0 <= k < jobs.len() && k != at implies kept(#[trigger] jobs[k]) by {
        assert(jobs[k].id != jobs[at].id);
    }
    lemma_filter_one(jobs, kept, at);
    let rest = jobs.remove(at);
    assert forall|i: int, j: int| 0 <= i < j < rest.len() implies (#[trigger] rest[i]).id < (
    #[trigger] rest[j]).id by {
        let x = if i < at { i } else { i + 1 };
        let y = if j < at { j } else { j + 1 };
        assert(rest[i] == jobs[x] && rest[j] == jobs[y]);
    }
    assert forall|i: int| #![trigger rest[i]] 0 <= i < rest.len() implies 0 < rest[i].id
        <= sequence && rest[i].valid() by {
        let x = if i < at { i } else { i + 1 };
        assert(rest[i] == jobs[x]);
    }
}

/// Of the jobs in a list, exactly those of another number are left without a given one.
pub(crate) proof fn lemma_without(jobs: Seq<QueueSnapshot>, gone: JobId, id: JobId)
    ensures
        has_job(without(jobs, gone), id) <==> has_job(jobs, id) && id != gone,
{
    let kept = |j: QueueSnapshot| j.id != gone;
    let rest = jobs.filter(kept);
    if has_job(rest, id) {
        let i = choose|i: int| 0 <= i < rest.len() && (#[trigger] rest[i]).id == id;
        jobs.lemma_filter_pred(kept, i);
        jobs.lemma_filter_contains_rev(kept, rest[i]);
        let k = jobs.index_of(rest[i]);
        assert(jobs[k].id == id);
    }
    if has_job(jobs, id) && id != gone {
        let i = choose|i: int| 0 <= i < jobs.len() && (#[trigger] jobs[i]).id == id;
        jobs.lemma_filter_contains(kept, i);
        let k = rest.index_of(jobs[i]);
        assert(rest[k].id == id);
    }
}

/// A job that is taken in comes last and waits, under a number that no job had before; the jobs that
/// were there stay as they are. Its claim, its message and its report carry that number, the message
/// also the job itself and its weight.
pub proof fn law_submitted_job_comes_last(
    before: QueueHandle,
    after: QueueHandle,
    request: JobRequest,
    weight: NonZeroU32,
    now: Timestamp,
    submission: Submission,
    i: int,
)
    requires
        before.wf(),
        after.takes_in(before, request, weight, now, submission),
        0 <= i < before.jobs@.len(),
    ensures
        after.jobs@.len() == before.jobs@.len() + 1,
        after.jobs@[i] == before.jobs@[i],
        before.jobs@[i].id < submission.ticket@,
        submission.ticket@ == before.sequence + 1,
        ({
            let job = after.jobs@[before.jobs@.len() as int];
            &&& job.id == submission.ticket@
            &&& job.account@ == request.account@
            &&& job.description@ == request.title()
            &&& job.state == QueueJobState::Pending
            &&& job.enqueued_at == now
            &&& job.started_at is None
        }),
        submission.message.id == submission.ticket@,
        submission.message.request == request,
        submission.message.weight == weight,
        submission.telemetry.job_id == submission.ticket@,
        submission.telemetry.kind == TelemetryKind::Enqueued,
        submission.telemetry.account@ == request.account@,
        submission.telemetry.timestamp == now,
        submission.telemetry.status is None,
        submission.telemetry.setback is None,
{
    assert(after.jobs@.drop_last()[i] == after.jobs@[i]);
}

/// A report tells the number of its job, the account, what the job is called, what happened, when,
/// and the budget at that time if it is known.
pub proof fn law_reports_tell_of_their_job(
    event: TelemetryEvent,
    id: JobId,
    request: JobRequest,
    kind: TelemetryKind,
    now: Timestamp,
    status: Option<RateStatus>,
)
    requires
        event.reports(id, request, kind, now, status),
    ensures
        event.job_id == id,
        event.account@ == request.account@,
        event.description@ == request.title(),
        event.kind == kind,
        event.timestamp == now,
        event.status == status,
{
}

/// Beginning a job notes when that was, and that it is being worked on; everything else of the job,
/// every other job, and their order stay as they are.
pub proof fn law_beginning_changes_one_job(
    jobs: Seq<QueueSnapshot>,
    id: JobId,
    now: Timestamp,
    i: int,
)
    requires
        0 <= i < jobs.len(),
    ensures
        ({
            let after = with_started(jobs, id, now);
            &&& after.len() == jobs.len()
            &&& jobs[i].id != id ==> after[i] == jobs[i]
            &&& jobs[i].id == id ==> {
                &&& after[i].id == id
                &&& after[i].state == QueueJobState::InFlight
                &&& after[i].started_at == Some(now)
                &&& after[i].account == jobs[i].account
                &&& after[i].description == jobs[i].description
                &&& after[i].enqueued_at == jobs[i].enqueued_at
            }
        }),
{
}

/// Of the jobs in a list, exactly those of another number are left without a given one.
pub proof fn law_only_the_finished_job_is_gone(
    jobs: Seq<QueueSnapshot>,
    gone: JobId,
    id: JobId,
)
    ensures
        (exists|i: int| 0 <= i < without(jobs, gone).len() && (#[trigger] without(jobs, gone)[i]).id == id)
            <==> id != gone && exists|i: int| 0 <= i < jobs.len() && (#[trigger] jobs[i]).id == id,
{
    lemma_without(jobs, gone, id);
    assert(has_job(without(jobs, gone), id) <==> has_job(jobs, id) && id != gone);
}

/// What a job is called names its account and what it is about: the site, the metrics, or the number
/// of events. A custom job is called by its label.
pub proof fn law_titles_name_what_jobs_are_about(request: JobRequest)
    ensures
        request.kind is ListSites ==> request.title() == "List sites for "@ + request.account@,
        request.kind matches JobKind::StatsAggregate { query } ==> request.title()
            == "Aggregate stats for "@ + request.account@ + " ("@ + debugged(
            text::views(query.metrics@),
        ) + ")"@,
        request.kind matches JobKind::StatsTimeseries { query } ==> request.title()
            == "Timeseries stats for "@ + request.account@ + " ("@ + debugged(
            text::views(query.metrics@),
        ) + ")"@,
        request.kind matches JobKind::StatsBreakdown { query } ==> request.title()
            == "Breakdown stats for "@ + request.account@ + " ("@ + debugged(
            text::views(query.metrics@),
        ) + ")"@,
        request.kind matches JobKind::StatsRealtime { site_id } ==> request.title()
            == "Realtime visitors of "@ + site_id@ + " for "@ + request.account@,
        request.kind matches JobKind::SiteCreate { request: site } ==> request.title()
            == "Create site "@ + site.domain@ + " for "@ + request.account@,
        request.kind matches JobKind::SiteUpdate { site_id, .. } ==> request.title()
            == "Update site "@ + site_id@ + " for "@ + request.account@,
        request.kind matches JobKind::SiteReset { site_id, .. } ==> request.title()
            == "Reset site "@ + site_id@ + " for "@ + request.account@,
        request.kind matches JobKind::SiteDelete { site_id } ==> request.title()
            == "Delete site "@ + site_id@ + " for "@ + request.account@,
        request.kind is EventSend ==> request.title() == "Send event for "@ + request.account@,
        request.kind matches JobKind::EventsImport { events } ==> request.title() == "Import "@
            + text::decimal(events@.len()) + " events for "@ + request.account@,
        request.kind matches JobKind::Custom { label } ==> request.title() == label@,
{
}

/// A message says what went wrong: that the queue is closed, that the requests could not be counted,
/// or that the job failed, and why.
pub proof fn law_worker_messages_tell_the_details(detail: String, cause: RateLimitError)
    ensures
        WorkerError::QueueClosed.text() == "queue closed"@,
        WorkerError::Execution(detail).text() == "execution error: "@ + detail@,
        WorkerError::RateLimit(cause).text() == "rate limiter error: "@ + cause.text(),
{
}

} // verus!
