use plausible_cli::cli::executor::{ExecutorStep, PlausibleExecutor, Reply};
use plausible_cli::client::{
    handle_response, is_success, normalize_base_url, normalized_path, AggregateQuery,
    ApiRequest, BreakdownQuery, ClientError, CreateSiteRequest, Method, PlausibleClient,
    ResetSiteStatsRequest, SiteSummary, TimeseriesQuery, UpdateSiteRequest,
};
use plausible_cli::queue::{JobKind, JobResponse, WorkerError};
use plausible_cli::Error;

fn test_client(api_key: &str) -> PlausibleClient {
    PlausibleClient::with_base_url(api_key.into(), "http://127.0.0.1:5000/").expect("client")
}

fn pairs(request: &ApiRequest) -> Vec<(&str, &str)> {
    request.query.iter().map(|p| (p.0.as_str(), p.1.as_str())).collect()
}

fn sent(step: ExecutorStep) -> ApiRequest {
    match step {
        ExecutorStep::Send(request) => request,
        other => panic!("unexpected step {:?}", other),
    }
}

fn breakdown_query() -> BreakdownQuery {
    BreakdownQuery {
        site_id: "example.com".into(),
        property: "event:page".into(),
        metrics: vec![],
        period: None,
        date: Some("2024-01-01".into()),
        filters: vec![],
        properties: vec!["a".into(), "b".into()],
        compare: None,
        sort: None,
        limit: Some(5),
        page: None,
        included: Some("previous".into()),
    }
}

fn timeseries_query() -> TimeseriesQuery {
    TimeseriesQuery {
        site_id: "example.com".into(),
        metrics: vec!["visitors".into()],
        period: Some("7d".into()),
        date: None,
        interval: Some("date".into()),
        filters: vec![],
        properties: vec![],
        compare: Some("previous_period".into()),
        sort: Some("visitors:desc".into()),
        limit: None,
        page: Some(2),
    }
}

#[test]
fn site_list_is_requested_with_the_key() {
    let request = test_client("secret").list_sites().expect("list sites");
    assert_eq!(request.method, Method::Get);
    assert_eq!(request.url, "http://127.0.0.1:5000/api/v1/sites");
    assert_eq!(request.bearer, "secret");
    assert!(request.query.is_empty());
}

#[test]
fn aggregate_query_is_sent_as_parameters() {
    let query = AggregateQuery {
        site_id: "example.com".into(),
        metrics: vec!["visitors".into(), "pageviews".into()],
        filters: vec!["event:page==/docs".into()],
        ..AggregateQuery::default()
    };
    let request = test_client("test-key").stats_aggregate(&query).expect("aggregate");
    assert_eq!(request.url, "http://127.0.0.1:5000/api/v1/stats/aggregate");
    assert_eq!(request.bearer, "test-key");
    assert_eq!(
        pairs(&request),
        vec![
            ("site_id", "example.com"),
            ("metrics", "visitors,pageviews"),
            ("filters", "event:page==/docs"),
        ]
    );
}

#[test]
fn every_aggregate_parameter_has_its_place() {
    let query = AggregateQuery {
        site_id: "s".into(),
        metrics: vec![],
        period: Some("p".into()),
        date: Some("d".into()),
        filters: vec!["f".into(), "g".into()],
        properties: vec!["q".into(), "r".into()],
        compare: Some("c".into()),
        interval: Some("i".into()),
        sort: Some("o".into()),
        limit: Some(10),
        page: Some(4_000_000_000),
    };
    let params = query.params();
    let pairs: Vec<(&str, &str)> = params.iter().map(|p| (p.0.as_str(), p.1.as_str())).collect();
    assert_eq!(
        pairs,
        vec![
            ("site_id", "s"),
            ("metrics", "visitors"),
            ("period", "p"),
            ("date", "d"),
            ("filters", "f;g"),
            ("properties", "q;r"),
            ("compare", "c"),
            ("interval", "i"),
            ("sort", "o"),
            ("limit", "10"),
            ("page", "4000000000"),
        ]
    );
}

#[test]
fn stats_aggregate_requires_site_id() {
    let client = test_client("secret");
    let query = AggregateQuery::default();
    let err = client.stats_aggregate(&query).expect_err("validation");
    assert!(matches!(err, ClientError::Validation(msg) if msg.contains("site_id")));
}

#[test]
fn non_success_status_returns_api_error() {
    let err = handle_response(401, Some("unauthorized".into())).expect_err("api error");
    assert_eq!(
        err.message(),
        "API request failed with status 401 Unauthorized: unauthorized"
    );
    assert!(matches!(err, ClientError::Api { status, .. } if status == 401));
}

#[test]
fn success_is_the_two_hundreds() {
    for status in [200, 202, 204, 299] {
        assert!(is_success(status));
        assert!(handle_response(status, None).is_ok());
    }
    for status in [100, 199, 300, 404, 500] {
        assert!(!is_success(status));
    }
    match handle_response(500, None) {
        Err(ClientError::Api { status, message }) => {
            assert_eq!(status, 500);
            assert_eq!(message, "unable to read error body");
        }
        other => panic!("unexpected outcome {:?}", other),
    }
}

#[test]
fn base_urls_end_with_a_slash() {
    assert_eq!(normalized_path(""), Some("/".into()));
    assert_eq!(normalized_path("/"), None);
    assert_eq!(normalized_path("/a"), Some("/a/".into()));
    assert_eq!(normalized_path("/a/"), None);
    assert_eq!(
        normalize_base_url("https://example.com/a?b=c").expect("url"),
        "https://example.com/a/?b=c"
    );
    assert_eq!(
        normalize_base_url("https://example.com/a/?b=c").expect("url"),
        "https://example.com/a/?b=c"
    );
    assert!(matches!(normalize_base_url("nonsense"), Err(ClientError::InvalidBaseUrl(_))));
    let client = PlausibleClient::with_base_text("k".into(), "HTTPS://Example.COM/sub").expect("client");
    assert_eq!(client.base_url(), "https://example.com/sub/");
    assert_eq!(client.endpoint("api/event").expect("url"), "https://example.com/sub/api/event");
}

#[test]
fn public_instance_is_the_default() {
    let client = PlausibleClient::new("k".into()).expect("client");
    assert_eq!(client.base_url(), "https://plausible.io/");
    assert_eq!(client.user_agent(), "plausible-cli/1.0.0");
    let err = PlausibleClient::new(" ".into()).expect_err("empty");
    assert_eq!(err.message(), "request validation failed: api_key cannot be empty");
    let err = PlausibleClient::with_base_text("k".into(), "nonsense").expect_err("url");
    assert_eq!(err.message(), "invalid base URL: relative URL without a base");
}

#[test]
fn endpoints_that_are_no_urls_are_refused() {
    let client = test_client("k");
    let err = client.endpoint("http://[").expect_err("endpoint");
    assert_eq!(err.message(), "invalid endpoint: invalid IPv6 address");
}

#[test]
fn other_messages_name_what_went_wrong() {
    assert_eq!(ClientError::HttpClient("x".into()).message(), "HTTP client build error: x");
    assert_eq!(ClientError::Http("x".into()).message(), "x");
    assert_eq!(Error::Client(ClientError::Http("y".into())).message(), "y");
    assert_eq!(Error::Serialization("z".into()).message(), "z");
    assert_eq!(Error::Runtime("r".into()).message(), "r");
}

#[test]
fn jobs_make_their_requests() {
    let executor = PlausibleExecutor::new(test_client("k"));
    let base = "http://127.0.0.1:5000/";
    let check = |kind: JobKind, method: Method, path: &str, body: Option<&str>| {
        let request = sent(executor.execute(&kind, 0));
        assert_eq!(request.method, method);
        assert_eq!(request.url, format!("{}{}", base, path));
        assert_eq!(request.bearer, "k");
        assert_eq!(request.body.as_ref().map(|b| b.to_string()).as_deref(), body);
        request
    };
    check(JobKind::ListSites, Method::Get, "api/v1/sites", None);
    let create = CreateSiteRequest { domain: "d".into(), timezone: None, public: None };
    check(
        JobKind::SiteCreate { request: Box::new(create) },
        Method::Post,
        "api/v1/sites",
        Some(r#"{"domain":"d"}"#),
    );
    let update = UpdateSiteRequest { timezone: None, public: Some(true), main_site: None };
    check(
        JobKind::SiteUpdate { site_id: "s.com".into(), request: Box::new(update) },
        Method::Put,
        "api/v1/sites/s.com",
        Some(r#"{"public":true}"#),
    );
    let reset = ResetSiteStatsRequest { date: Some("2024-01-01".into()) };
    check(
        JobKind::SiteReset { site_id: "s.com".into(), request: Box::new(reset) },
        Method::Post,
        "api/v1/sites/s.com/reset",
        Some(r#"{"date":"2024-01-01"}"#),
    );
    check(
        JobKind::SiteDelete { site_id: "s.com".into() },
        Method::Delete,
        "api/v1/sites/s.com",
        None,
    );
    let realtime = check(
        JobKind::StatsRealtime { site_id: "s.com".into() },
        Method::Get,
        "api/v1/stats/realtime/visitors",
        None,
    );
    assert_eq!(pairs(&realtime), vec![("site_id", "s.com")]);
    let timeseries = check(
        JobKind::StatsTimeseries { query: Box::new(timeseries_query()) },
        Method::Get,
        "api/v1/stats/timeseries",
        None,
    );
    assert_eq!(
        pairs(&timeseries),
        vec![
            ("site_id", "example.com"),
            ("metrics", "visitors"),
            ("period", "7d"),
            ("compare", "previous_period"),
            ("interval", "date"),
            ("sort", "visitors:desc"),
            ("page", "2"),
        ]
    );
    let breakdown = check(
        JobKind::StatsBreakdown { query: Box::new(breakdown_query()) },
        Method::Get,
        "api/v1/stats/breakdown",
        None,
    );
    assert_eq!(
        pairs(&breakdown),
        vec![
            ("site_id", "example.com"),
            ("property", "event:page"),
            ("metrics", "visitors"),
            ("date", "2024-01-01"),
            ("properties", "a;b"),
            ("limit", "5"),
            ("include", "previous"),
        ]
    );
    let event = serde_json::Value::Bool(true);
    check(JobKind::EventSend { event }, Method::Post, "api/event", Some("true"));
}

#[test]
fn site_requests_carry_what_is_given() {
    let client = test_client("k");
    let create = CreateSiteRequest {
        domain: "d".into(),
        timezone: Some("UTC".into()),
        public: Some(false),
    };
    let body = client.create_site(&create).expect("create").body.expect("body");
    assert_eq!(body.to_string(), r#"{"domain":"d","public":false,"timezone":"UTC"}"#);
    let nothing = UpdateSiteRequest { timezone: None, public: None, main_site: None };
    let body = client.update_site("s", &nothing).expect("update").body.expect("body");
    assert_eq!(body.to_string(), "{}");
    let main = UpdateSiteRequest { timezone: Some("UTC".into()), public: None, main_site: Some(true) };
    let body = client.update_site("s", &main).expect("update").body.expect("body");
    assert_eq!(body.to_string(), r#"{"main_site":true,"timezone":"UTC"}"#);
}

#[test]
fn queries_without_a_site_fail() {
    let executor = PlausibleExecutor::new(test_client("k"));
    let blank = StatsKinds::blank();
    for kind in &blank.kinds {
        match executor.execute(kind, 0) {
            ExecutorStep::Finish(Err(error)) => assert_eq!(
                error.message(),
                "execution error: request validation failed: site_id cannot be empty"
            ),
            other => panic!("unexpected step {:?}", other),
        }
    }
}

struct StatsKinds {
    kinds: Vec<JobKind>,
}

impl StatsKinds {
    fn blank() -> StatsKinds {
        let site = || String::from(" ");
        StatsKinds {
            kinds: vec![
                JobKind::StatsAggregate {
                    query: Box::new(AggregateQuery { site_id: site(), ..AggregateQuery::default() }),
                },
                JobKind::StatsTimeseries {
                    query: Box::new(TimeseriesQuery { site_id: site(), ..timeseries_query() }),
                },
                JobKind::StatsBreakdown {
                    query: Box::new(BreakdownQuery { site_id: site(), ..breakdown_query() }),
                },
                JobKind::StatsRealtime { site_id: site() },
            ],
        }
    }
}

#[test]
fn replies_become_responses() {
    let executor = PlausibleExecutor::new(test_client("k"));
    let site = || SiteSummary {
        domain: "d".into(),
        timezone: None,
        is_main_site: None,
        public: None,
        verified: None,
    };
    let finish = |kind: JobKind, reply: Reply| match executor.resume(&kind, 0, Ok(reply)) {
        (0, ExecutorStep::Finish(Ok(response))) => response,
        other => panic!("unexpected outcome {:?}", other),
    };
    assert!(matches!(
        finish(JobKind::ListSites, Reply::Sites(vec![site()])),
        JobResponse::Sites(sites) if sites.len() == 1
    ));
    let update = UpdateSiteRequest { timezone: None, public: None, main_site: None };
    assert!(matches!(
        finish(
            JobKind::SiteUpdate { site_id: "d".into(), request: Box::new(update) },
            Reply::Site(site())
        ),
        JobResponse::SiteUpdated(_)
    ));
    let create = CreateSiteRequest { domain: "d".into(), timezone: None, public: None };
    assert!(matches!(
        finish(JobKind::SiteCreate { request: Box::new(create) }, Reply::Site(site())),
        JobResponse::SiteCreated(_)
    ));
    assert!(matches!(
        finish(JobKind::SiteDelete { site_id: "d".into() }, Reply::Done),
        JobResponse::SiteDeleted
    ));
    assert!(matches!(
        finish(JobKind::EventSend { event: serde_json::Value::Null }, Reply::Done),
        JobResponse::EventAck
    ));
    let error = ClientError::Api { status: 404, message: "gone".into() };
    match executor.resume(&JobKind::ListSites, 0, Err(error)) {
        (0, ExecutorStep::Finish(Err(WorkerError::Execution(message)))) => {
            assert_eq!(message, "API request failed with status 404 Not Found: gone")
        }
        other => panic!("unexpected outcome {:?}", other),
    }
}

#[test]
fn imports_send_each_event_once_and_stop_at_the_first_failure() {
    let executor = PlausibleExecutor::new(test_client("k"));
    let events = || vec![serde_json::Value::Null, serde_json::Value::Bool(true)];
    let kind = JobKind::EventsImport { events: events() };
    let first = sent(executor.execute(&kind, 0));
    assert_eq!(first.body, Some(serde_json::Value::Null));
    let (done, step) = executor.resume(&kind, 0, Ok(Reply::Done));
    assert_eq!(done, 1);
    assert_eq!(sent(step).body, Some(serde_json::Value::Bool(true)));
    match executor.resume(&kind, 1, Ok(Reply::Done)) {
        (2, ExecutorStep::Finish(Ok(JobResponse::EventsProcessed { processed }))) => {
            assert_eq!(processed, 2)
        }
        other => panic!("unexpected outcome {:?}", other),
    }
    match executor.resume(&kind, 1, Err(ClientError::Http("down".into()))) {
        (1, ExecutorStep::Finish(Err(error))) => {
            assert_eq!(error.message(), "execution error: down")
        }
        other => panic!("unexpected outcome {:?}", other),
    }
    let custom = JobKind::Custom { label: "x".into() };
    assert!(matches!(
        executor.execute(&custom, 0),
        ExecutorStep::Finish(Ok(JobResponse::Acknowledged))
    ));
}

#[test]
fn base_urls_are_normalised_once() {
    for (given, base) in [
        ("https://example.com", "https://example.com/"),
        ("http://u:p@example.com:8080/a//b%2Fc?q=/x#f/", "http://u:p@example.com:8080/a//b%2Fc/?q=/x#f/"),
        ("https://EXAMPLE.com/a/../b", "https://example.com/b/"),
        ("https://example.com/b\u{fc}cher", "https://example.com/b%C3%BCcher/"),
    ] {
        let first = PlausibleClient::with_base_text("key".into(), given).expect("client");
        assert_eq!(first.base_url(), base);
        assert_eq!(normalize_base_url(first.base_url()).expect("again"), base);
        let second =
            PlausibleClient::with_base_url("other".into(), first.base_url()).expect("client");
        assert_eq!(second.base_url(), base);
    }
    assert_eq!(normalize_base_url("mailto:a").expect("opaque"), "mailto:a/");
    assert_eq!(normalize_base_url("data:").expect("bare"), "data:%2F");
}
