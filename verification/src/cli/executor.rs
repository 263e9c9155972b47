//! How a job is executed: which requests it makes, and what it yields.

use crate::client;
use crate::client::{
    AggregateResponse, ApiRequest, BreakdownResponse, ClientError, Method, PlausibleClient,
    RealtimeVisitorsResponse, SiteSummary, TimeseriesResponse,
};
use crate::json;
use crate::queue::{JobKind, JobResponse, JobResult, WorkerError};
use crate::text;
use vstd::prelude::*;

verus! {

/// What the API replied to a request.
#[derive(Debug)]
pub enum Reply {
    Sites(Vec<SiteSummary>),
    Site(SiteSummary),
    Aggregate(AggregateResponse),
    Timeseries(TimeseriesResponse),
    Breakdown(BreakdownResponse),
    Realtime(RealtimeVisitorsResponse),
    /// That it was done.
    Done,
}

/// What a job needs next.
#[derive(Debug)]
pub enum ExecutorStep {
    /// The reply to a request.
    Send(ApiRequest),
    /// Nothing: this is its result.
    Finish(JobResult),
}

impl Reply {
    /// Whether this is the kind of reply that a job expects.
    pub open spec fn fits(self, kind: JobKind) -> bool {
        match kind {
            JobKind::ListSites => self is Sites,
            JobKind::StatsAggregate { .. } => self is Aggregate,
            JobKind::StatsTimeseries { .. } => self is Timeseries,
            JobKind::StatsBreakdown { .. } => self is Breakdown,
            JobKind::StatsRealtime { .. } => self is Realtime,
            JobKind::SiteCreate { .. } => self is Site,
            JobKind::SiteUpdate { .. } => self is Site,
            JobKind::SiteReset { .. } => self is Done,
            JobKind::SiteDelete { .. } => self is Done,
            JobKind::EventSend { .. } => self is Done,
            JobKind::EventsImport { .. } => self is Done,
            JobKind::Custom { .. } => false,
        }
    }
}

/// Whether an outcome is the request that a job makes with a client, if `processed` requests are
/// done: an import sends its events one after the other. A query that names no site is refused.
pub open spec fn calls(
    client: PlausibleClient,
    kind: JobKind,
    processed: nat,
    outcome: Result<ApiRequest, ClientError>,
) -> bool {
    match kind {
        JobKind::ListSites => client.asks(
            outcome,
            Method::Get,
            "api/v1/sites"@,
            Seq::empty(),
            None,
        ),
        JobKind::StatsAggregate { query } => if text::trimmed(query.site_id@).len() == 0 {
            PlausibleClient::refuses_site(outcome)
        } else {
            client.asks(
                outcome,
                Method::Get,
                "api/v1/stats/aggregate"@,
                client::aggregate_params(*query),
                None,
            )
        },
        JobKind::StatsTimeseries { query } => if text::trimmed(query.site_id@).len() == 0 {
            PlausibleClient::refuses_site(outcome)
        } else {
            client.asks(
                outcome,
                Method::Get,
                "api/v1/stats/timeseries"@,
                client::timeseries_params(*query),
                None,
            )
        },
        JobKind::StatsBreakdown { query } => if text::trimmed(query.site_id@).len() == 0 {
            PlausibleClient::refuses_site(outcome)
        } else {
            client.asks(
                outcome,
                Method::Get,
                "api/v1/stats/breakdown"@,
                client::breakdown_params(*query),
                None,
            )
        },
        JobKind::StatsRealtime { site_id } => if text::trimmed(site_id@).len() == 0 {
            PlausibleClient::refuses_site(outcome)
        } else {
            client.asks(
                outcome,
                Method::Get,
                "api/v1/stats/realtime/visitors"@,
                seq![("site_id"@, site_id@)],
                None,
            )
        },
        JobKind::SiteCreate { request } => client.asks(
            outcome,
            Method::Post,
            "api/v1/sites"@,
            Seq::empty(),
            Some(request.document()),
        ),
        JobKind::SiteUpdate { site_id, request } => client.asks(
            outcome,
            Method::Put,
            "api/v1/sites/"@ + site_id@,
            Seq::empty(),
            Some(request.document()),
        ),
        JobKind::SiteReset { site_id, request } => client.asks(
            outcome,
            Method::Post,
            "api/v1/sites/"@ + site_id@ + "/reset"@,
            Seq::empty(),
            Some(request.document()),
        ),
        JobKind::SiteDelete { site_id } => client.asks(
            outcome,
            Method::Delete,
            "api/v1/sites/"@ + site_id@,
            Seq::empty(),
            None,
        ),
        JobKind::EventSend { event } => client.asks(
            outcome,
            Method::Post,
            "api/event"@,
            Seq::empty(),
            Some(json::content(event)),
        ),
        JobKind::EventsImport { events } => client.asks(
            outcome,
            Method::Post,
            "api/event"@,
            Seq::empty(),
            Some(json::content(events@[processed as int])),
        ),
        JobKind::Custom { .. } => false,
    }
}

/// Whether a job has failed with a given message.
pub open spec fn failed(step: ExecutorStep, message: Seq<char>) -> bool {
    step matches ExecutorStep::Finish(Err(WorkerError::Execution(m))) && m@ == message
}

/// Whether a step makes a request, or fails because there is none to be made.
pub open spec fn relays(step: ExecutorStep, outcome: Result<ApiRequest, ClientError>) -> bool {
    match outcome {
        Ok(request) => step == ExecutorStep::Send(request),
        Err(e) => failed(step, e.text()),
    }
}

/// Whether a step makes the request of a job of which `processed` requests are done.
pub open spec fn requests(
    client: PlausibleClient,
    kind: JobKind,
    processed: nat,
    step: ExecutorStep,
) -> bool {
    exists|outcome: Result<ApiRequest, ClientError>| #[trigger]
        calls(client, kind, processed, outcome) && relays(step, outcome)
}

/// What a job yields once it got the reply it expects.
pub open spec fn yielded(kind: JobKind, reply: Reply) -> JobResponse {
    match (kind, reply) {
        (_, Reply::Sites(sites)) => JobResponse::Sites(sites),
        (_, Reply::Aggregate(r)) => JobResponse::StatsAggregate(r),
        (_, Reply::Timeseries(r)) => JobResponse::StatsTimeseries(r),
        (_, Reply::Breakdown(r)) => JobResponse::StatsBreakdown(r),
        (_, Reply::Realtime(r)) => JobResponse::StatsRealtime(r),
        (JobKind::SiteUpdate { .. }, Reply::Site(site)) => JobResponse::SiteUpdated(site),
        (_, Reply::Site(site)) => JobResponse::SiteCreated(site),
        (JobKind::SiteReset { .. }, Reply::Done) => JobResponse::SiteReset,
        (JobKind::SiteDelete { .. }, Reply::Done) => JobResponse::SiteDeleted,
        (_, Reply::Done) => JobResponse::EventAck,
    }
}

/// Executes jobs with a client.
#[derive(Debug)]
pub struct PlausibleExecutor {
    pub client: PlausibleClient,
}

impl PlausibleExecutor {
    /// An executor over a client.
    pub fn new(client: PlausibleClient) -> (executor: PlausibleExecutor)
        ensures
            executor.client == client,
    {
        PlausibleExecutor { client }
    }

    /// Whether a step is the next one of a job of which `processed` requests are done: an import
    /// makes one request for each event and yields how many there were, a custom job makes none,
    /// and any other job makes one.
    pub open spec fn continues(self, kind: JobKind, processed: nat, step: ExecutorStep) -> bool {
        match kind {
            JobKind::Custom { .. } => step == ExecutorStep::Finish(Ok(JobResponse::Acknowledged)),
            JobKind::EventsImport { events } => if processed < events@.len() {
                requests(self.client, kind, processed, step)
            } else {
                &&& step matches ExecutorStep::Finish(
                    Ok(JobResponse::EventsProcessed { processed: n }),
                )
                &&& n == processed
            },
            _ => requests(self.client, kind, processed, step),
        }
    }

    /// Whether a job of which `processed` requests were done goes on as it should after a reply: with
    /// `done` requests done now, and a next step. A request that fails ends the job.
    pub open spec fn resumes(
        self,
        kind: JobKind,
        processed: nat,
        reply: Result<Reply, ClientError>,
        done: nat,
        step: ExecutorStep,
    ) -> bool {
        match reply {
            Err(e) => done == processed && failed(step, e.text()),
            Ok(r) => match kind {
                JobKind::EventsImport { .. } => {
                    &&& done == processed + 1
                    &&& self.continues(kind, done, step)
                },
                _ => {
                    &&& done == processed
                    &&& step == ExecutorStep::Finish(Ok(yielded(kind, r)))
                },
            },
        }
    }

    fn relay(&self, outcome: Result<ApiRequest, ClientError>) -> (step: ExecutorStep)
        ensures
            relays(step, outcome),
    {
        match outcome {
            Ok(request) => ExecutorStep::Send(request),
            Err(e) => ExecutorStep::Finish(Err(WorkerError::Execution(e.message()))),
        }
    }

    /// The next step of a job of which `processed` requests are done.
    pub fn execute(&self, kind: &JobKind, processed: usize) -> (step: ExecutorStep)
        requires
            *kind matches JobKind::EventsImport { events } ==> processed <= events@.len(),
        ensures
            self.continues(*kind, processed as nat, step),
    {
        let outcome = match kind {
            JobKind::ListSites => self.client.list_sites(),
            JobKind::StatsAggregate { query } => self.client.stats_aggregate(query),
            JobKind::StatsTimeseries { query } => self.client.stats_timeseries(query),
            JobKind::StatsBreakdown { query } => self.client.stats_breakdown(query),
            JobKind::StatsRealtime { site_id } => self.client.stats_realtime_visitors(
                site_id.as_str(),
            ),
            JobKind::SiteCreate { request } => self.client.create_site(request),
            JobKind::SiteUpdate { site_id, request } => self.client.update_site(
                site_id.as_str(),
                request,
            ),
            JobKind::SiteReset { site_id, request } => self.client.reset_site_stats(
                site_id.as_str(),
                request,
            ),
            JobKind::SiteDelete { site_id } => self.client.delete_site(site_id.as_str()),
            JobKind::EventSend { event } => self.client.send_event(event),
            JobKind::EventsImport { events } => {
                if processed >= events.len() {
                    return ExecutorStep::Finish(Ok(JobResponse::EventsProcessed { processed }));
                }
                self.client.send_event(&events[processed])
            },
            JobKind::Custom { .. } => {
                return ExecutorStep::Finish(Ok(JobResponse::Acknowledged));
            },
        };
        assert(calls(self.client, *kind, processed as nat, outcome));
        self.relay(outcome)
    }

    /// What follows the reply to a request of a job of which `processed` requests were done before:
    /// the number of requests that are done now, and the next step. The first request that fails
    /// ends the job.
    pub fn resume(
        &self,
        kind: &JobKind,
        processed: usize,
        reply: Result<Reply, ClientError>,
    ) -> (outcome: (usize, ExecutorStep))
        requires
            *kind matches JobKind::EventsImport { events } ==> processed < events@.len(),
            reply matches Ok(r) ==> r.fits(*kind),
        ensures
            self.resumes(*kind, processed as nat, reply, outcome.0 as nat, outcome.1),
    {
        let reply = match reply {
            Ok(reply) => reply,
            Err(e) => {
                return (processed, ExecutorStep::Finish(Err(WorkerError::Execution(e.message()))));
            },
        };
        match kind {
            JobKind::EventsImport { events } => {
                let total: usize = events.len();
                assert(processed < total);
                return (processed + 1, self.execute(kind, processed + 1));
            },
            _ => {},
        }
        let response = match reply {
            Reply::Sites(sites) => JobResponse::Sites(sites),
            Reply::Aggregate(r) => JobResponse::StatsAggregate(r),
            Reply::Timeseries(r) => JobResponse::StatsTimeseries(r),
            Reply::Breakdown(r) => JobResponse::StatsBreakdown(r),
            Reply::Realtime(r) => JobResponse::StatsRealtime(r),
            Reply::Site(site) => match kind {
                JobKind::SiteUpdate { .. } => JobResponse::SiteUpdated(site),
                _ => JobResponse::SiteCreated(site),
            },
            Reply::Done => match kind {
                JobKind::SiteReset { .. } => JobResponse::SiteReset,
                JobKind::SiteDelete { .. } => JobResponse::SiteDeleted,
                _ => JobResponse::EventAck,
            },
        };
        (processed, ExecutorStep::Finish(Ok(response)))
    }
}

/// An import sends its events one after the other, each once, and once as many were answered as
/// there are events, it yields their number.
pub proof fn law_import_sends_each_event_once(
    executor: PlausibleExecutor,
    events: Vec<serde_json::Value>,
    processed: nat,
    step: ExecutorStep,
)
    requires
        executor.continues(JobKind::EventsImport { events }, processed, step),
    ensures
        step matches ExecutorStep::Send(request) ==> {
            &&& processed < events@.len()
            &&& client::carried(request.body) == Some(json::content(events@[processed as int]))
        },
        processed == events@.len() ==> {
            &&& step matches ExecutorStep::Finish(Ok(JobResponse::EventsProcessed { processed: n }))
            &&& n == events@.len()
        },
{
}

/// A custom job makes no request.
pub proof fn law_custom_job_makes_no_request(
    executor: PlausibleExecutor,
    label: String,
    processed: nat,
    step: ExecutorStep,
)
    requires
        executor.continues(JobKind::Custom { label }, processed, step),
    ensures
        step == ExecutorStep::Finish(Ok(JobResponse::Acknowledged)),
{
}

/// The site that a job queries, if it queries one.
pub open spec fn queried_site(kind: JobKind) -> Option<Seq<char>> {
    match kind {
        JobKind::StatsAggregate { query } => Some(query.site_id@),
        JobKind::StatsTimeseries { query } => Some(query.site_id@),
        JobKind::StatsBreakdown { query } => Some(query.site_id@),
        JobKind::StatsRealtime { site_id } => Some(site_id@),
        _ => None,
    }
}

/// A query that names no site is never sent.
pub proof fn law_query_without_site_is_not_sent(
    executor: PlausibleExecutor,
    kind: JobKind,
    processed: nat,
    step: ExecutorStep,
)
    requires
        queried_site(kind) matches Some(site) && text::blank(site),
        executor.continues(kind, processed, step),
    ensures
        failed(step, "request validation failed: "@ + "site_id cannot be empty"@),
{
    text::lemma_trimmed_empty(queried_site(kind)->Some_0);
}

/// Whether a request is authorised by the key of a client, and goes to an endpoint of its API by a
/// given method.
pub open spec fn addressed(
    client: PlausibleClient,
    request: ApiRequest,
    method: Method,
    fragment: Seq<char>,
) -> bool {
    &&& request.bearer@ == client.key()
    &&& request.method == method
    &&& client::url_joined(client.base(), fragment) == Ok::<Seq<char>, Seq<char>>(request.url@)
}

/// The request of a job goes to the endpoint for that kind of job, by the method that fits, and
/// carries what the job is about. Queries carry parameters, everything else that tells the API
/// something carries a document.
pub proof fn law_jobs_ask_for_what_they_are_about(
    client: PlausibleClient,
    kind: JobKind,
    processed: nat,
    request: ApiRequest,
)
    requires
        calls(client, kind, processed, Ok(request)),
    ensures
        kind is ListSites ==> {
            &&& addressed(client, request, Method::Get, "api/v1/sites"@)
            &&& request.query@.len() == 0
            &&& request.body is None
        },
        kind matches JobKind::StatsRealtime { site_id } ==> {
            &&& addressed(client, request, Method::Get, "api/v1/stats/realtime/visitors"@)
            &&& request.query@.len() == 1
            &&& request.query@[0].0@ == "site_id"@
            &&& request.query@[0].1@ == site_id@
            &&& request.body is None
        },
        kind matches JobKind::SiteCreate { request: site } ==> {
            &&& addressed(client, request, Method::Post, "api/v1/sites"@)
            &&& request.query@.len() == 0
            &&& request.body matches Some(body)
            &&& json::has(json::content(body), "domain"@, json::Json::Text(site.domain@))
            &&& match site.timezone {
                Some(t) => json::has(json::content(body), "timezone"@, json::Json::Text(t@)),
                None => json::lacks(json::content(body), "timezone"@),
            }
            &&& match site.public {
                Some(b) => json::has(json::content(body), "public"@, json::Json::Bool(b)),
                None => json::lacks(json::content(body), "public"@),
            }
        },
        kind matches JobKind::SiteUpdate { site_id, request: changes } ==> {
            &&& addressed(client, request, Method::Put, "api/v1/sites/"@ + site_id@)
            &&& request.query@.len() == 0
            &&& request.body matches Some(body)
            &&& match changes.timezone {
                Some(t) => json::has(json::content(body), "timezone"@, json::Json::Text(t@)),
                None => json::lacks(json::content(body), "timezone"@),
            }
            &&& match changes.public {
                Some(b) => json::has(json::content(body), "public"@, json::Json::Bool(b)),
                None => json::lacks(json::content(body), "public"@),
            }
            &&& match changes.main_site {
                Some(b) => json::has(json::content(body), "main_site"@, json::Json::Bool(b)),
                None => json::lacks(json::content(body), "main_site"@),
            }
        },
        kind matches JobKind::SiteReset { site_id, request: reset } ==> {
            &&& addressed(
                client,
                request,
                Method::Post,
                "api/v1/sites/"@ + site_id@ + "/reset"@,
            )
            &&& request.query@.len() == 0
            &&& request.body matches Some(body)
            &&& match reset.date {
                Some(t) => json::has(json::content(body), "date"@, json::Json::Text(t@)),
                None => json::lacks(json::content(body), "date"@),
            }
        },
        kind matches JobKind::SiteDelete { site_id } ==> {
            &&& addressed(client, request, Method::Delete, "api/v1/sites/"@ + site_id@)
            &&& request.query@.len() == 0
            &&& request.body is None
        },
        kind matches JobKind::EventSend { event } ==> {
            &&& addressed(client, request, Method::Post, "api/event"@)
            &&& request.query@.len() == 0
            &&& request.body matches Some(body)
            &&& json::content(body) == json::content(event)
        },
        kind matches JobKind::EventsImport { events } ==> {
            &&& addressed(client, request, Method::Post, "api/event"@)
            &&& request.query@.len() == 0
            &&& request.body matches Some(body)
            &&& json::content(body) == json::content(events@[processed as int])
        },
{
    assert(client::param_views(request.query@).len() == request.query@.len());
    match kind {
        JobKind::StatsRealtime { .. } => {
            assert(client::param_views(request.query@)[0] == (
                request.query@[0].0@,
                request.query@[0].1@,
            ));
        },
        JobKind::SiteCreate { request: site } => {
            client::law_new_site_is_described(*site);
        },
        JobKind::SiteUpdate { request: changes, .. } => {
            client::law_changes_are_described(*changes);
        },
        JobKind::SiteReset { request: reset, .. } => {
            client::law_reset_is_described(*reset);
        },
        _ => {},
    }
}

/// A query for statistics goes to the endpoint for its kind and carries no document; its parameters
/// are exactly the arguments that are given.
pub proof fn law_queries_ask_for_what_is_given(
    client: PlausibleClient,
    kind: JobKind,
    processed: nat,
    request: ApiRequest,
)
    requires
        calls(client, kind, processed, Ok(request)),
    ensures
        kind matches JobKind::StatsAggregate { query } ==> {
            &&& addressed(client, request, Method::Get, "api/v1/stats/aggregate"@)
            &&& request.body is None
            &&& asks_for(
                request,
                query.site_id@,
                query.metrics@,
                query.period.deep_view(),
                query.date.deep_view(),
                query.filters@,
                query.properties@,
                query.compare.deep_view(),
                query.sort.deep_view(),
                query.limit,
                query.page,
            )
            &&& carries(request, "property"@, None)
            &&& carries(request, "interval"@, query.interval.deep_view())
            &&& carries(request, "include"@, None)
        },
        kind matches JobKind::StatsTimeseries { query } ==> {
            &&& addressed(client, request, Method::Get, "api/v1/stats/timeseries"@)
            &&& request.body is None
            &&& asks_for(
                request,
                query.site_id@,
                query.metrics@,
                query.period.deep_view(),
                query.date.deep_view(),
                query.filters@,
                query.properties@,
                query.compare.deep_view(),
                query.sort.deep_view(),
                query.limit,
                query.page,
            )
            &&& carries(request, "property"@, None)
            &&& carries(request, "interval"@, query.interval.deep_view())
            &&& carries(request, "include"@, None)
        },
        kind matches JobKind::StatsBreakdown { query } ==> {
            &&& addressed(client, request, Method::Get, "api/v1/stats/breakdown"@)
            &&& request.body is None
            &&& asks_for(
                request,
                query.site_id@,
                query.metrics@,
                query.period.deep_view(),
                query.date.deep_view(),
                query.filters@,
                query.properties@,
                query.compare.deep_view(),
                query.sort.deep_view(),
                query.limit,
                query.page,
            )
            &&& carries(request, "property"@, Some(query.property@))
            &&& carries(request, "interval"@, None)
            &&& carries(request, "include"@, query.included.deep_view())
        },
{
    client::lemma_parameter_names();
    match kind {
        JobKind::StatsAggregate { query } => {
            client::law_aggregate_sends_what_is_given(*query);
        },
        JobKind::StatsTimeseries { query } => {
            client::law_timeseries_sends_what_is_given(*query);
        },
        JobKind::StatsBreakdown { query } => {
            client::law_breakdown_sends_what_is_given(*query);
        },
        _ => {},
    }
}

/// Whether a request carries a value under a name, exactly once, or nothing under that name.
pub open spec fn carries(request: ApiRequest, name: Seq<char>, value: Option<Seq<char>>) -> bool {
    client::carry(client::param_views(request.query@), name, value)
}

/// Whether a request carries the arguments that every query for statistics may have.
pub open spec fn asks_for(
    request: ApiRequest,
    site: Seq<char>,
    metrics: Seq<String>,
    period: Option<Seq<char>>,
    date: Option<Seq<char>>,
    filters: Seq<String>,
    properties: Seq<String>,
    compare: Option<Seq<char>>,
    sort: Option<Seq<char>>,
    limit: Option<u32>,
    page: Option<u32>,
) -> bool {
    &&& carries(request, "site_id"@, Some(site))
    &&& carries(
        request,
        "metrics"@,
        Some(
            if metrics.len() == 0 {
                "visitors"@
            } else {
                text::joined(text::views(metrics), ","@)
            },
        ),
    )
    &&& carries(request, "period"@, period)
    &&& carries(request, "date"@, date)
    &&& carries(
        request,
        "filters"@,
        if filters.len() == 0 {
            None
        } else {
            Some(text::joined(text::views(filters), ";"@))
        },
    )
    &&& carries(
        request,
        "properties"@,
        if properties.len() == 0 {
            None
        } else {
            Some(text::joined(text::views(properties), ";"@))
        },
    )
    &&& carries(request, "compare"@, compare)
    &&& carries(request, "sort"@, sort)
    &&& carries(
        request,
        "limit"@,
        match limit {
            Some(n) => Some(text::decimal(n as nat)),
            None => None,
        },
    )
    &&& carries(
        request,
        "page"@,
        match page {
            Some(n) => Some(text::decimal(n as nat)),
            None => None,
        },
    )
}

/// What a job yields holds what the API replied, and says what was done: a site that was created or
/// changed, statistics that were reset, a site that was deleted, an event that was accepted.
pub proof fn law_replies_are_passed_on(kind: JobKind, reply: Reply)
    requires
        reply.fits(kind),
    ensures
        reply matches Reply::Sites(sites) ==> yielded(kind, reply) == JobResponse::Sites(sites),
        reply matches Reply::Aggregate(r) ==> yielded(kind, reply) == JobResponse::StatsAggregate(
            r,
        ),
        reply matches Reply::Timeseries(r) ==> yielded(kind, reply) == JobResponse::StatsTimeseries(
            r,
        ),
        reply matches Reply::Breakdown(r) ==> yielded(kind, reply) == JobResponse::StatsBreakdown(
            r,
        ),
        reply matches Reply::Realtime(r) ==> yielded(kind, reply) == JobResponse::StatsRealtime(r),
        reply matches Reply::Site(site) ==> {
            &&& kind is SiteCreate ==> yielded(kind, reply) == JobResponse::SiteCreated(site)
            &&& kind is SiteUpdate ==> yielded(kind, reply) == JobResponse::SiteUpdated(site)
        },
        kind is SiteReset ==> yielded(kind, reply) is SiteReset,
        kind is SiteDelete ==> yielded(kind, reply) is SiteDeleted,
        kind is EventSend ==> yielded(kind, reply) is EventAck,
        kind is ListSites ==> reply is Sites,
        kind is StatsAggregate ==> reply is Aggregate,
        kind is StatsTimeseries ==> reply is Timeseries,
        kind is StatsBreakdown ==> reply is Breakdown,
        kind is StatsRealtime ==> reply is Realtime,
{
}

/// A job other than a custom one or an import that is over makes a request, unless there is none
/// that could be made: then it fails with the reason.
pub proof fn law_jobs_make_their_request(
    executor: PlausibleExecutor,
    kind: JobKind,
    processed: nat,
    step: ExecutorStep,
)
    requires
        executor.continues(kind, processed, step),
        kind !is Custom,
        kind matches JobKind::EventsImport { events } ==> processed < events@.len(),
    ensures
        step matches ExecutorStep::Send(request) ==> calls(
            executor.client,
            kind,
            processed,
            Ok(request),
        ),
        step matches ExecutorStep::Finish(result) ==> (result matches Err(
            WorkerError::Execution(m),
        ) && exists|e: ClientError|
            #![trigger e.text()]
            calls(executor.client, kind, processed, Err(e)) && m@ == e.text()),
{
    let outcome = choose|outcome: Result<ApiRequest, ClientError>| #[trigger]
        calls(executor.client, kind, processed, outcome) && relays(step, outcome);
    if let Err(e) = outcome {
        assert(calls(executor.client, kind, processed, Err(e)) && failed(step, e.text()));
    }
}

/// A reply that reports a failure ends the job with its message, and no request is counted as done.
/// An import goes on with its next event after a reply, and any other job yields what was replied.
pub proof fn law_failure_ends_the_job(
    executor: PlausibleExecutor,
    kind: JobKind,
    processed: nat,
    reply: Result<Reply, ClientError>,
    done: nat,
    step: ExecutorStep,
)
    requires
        executor.resumes(kind, processed, reply, done, step),
    ensures
        reply matches Err(e) ==> done == processed && (step matches ExecutorStep::Finish(
            Err(WorkerError::Execution(m)),
        ) && m@ == e.text()),
        reply is Ok && kind is EventsImport ==> {
            &&& done == processed + 1
            &&& kind->events@.len() == done ==> (step matches ExecutorStep::Finish(
                Ok(JobResponse::EventsProcessed { processed: n }),
            ) && n == kind->events@.len())
            &&& done < kind->events@.len() ==> (step matches ExecutorStep::Send(request)
                ==> client::carried(request.body) == Some(
                json::content(kind->events@[done as int]),
            ))
        },
        reply is Ok && kind !is EventsImport ==> (step matches ExecutorStep::Finish(Ok(response))
            && response == yielded(kind, reply->Ok_0)),
{
}

} // verus!
