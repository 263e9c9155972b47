use plausible_cli::cli::accounts::{choose_budget, handle_account_command, StoreEffect};
use plausible_cli::cli::events::{
    accept_event, accept_line, event_source, import_source, load_event_payload,
    load_import_payload, parse_event_json, parse_ndjson, PayloadSource,
};
use plausible_cli::cli::execute::{
    confirm_deletion, confirmed, event_loaded, import_events, import_loaded, is_affirmative, plan,
    render_drained, render_dry_run, respond, Step,
};
use plausible_cli::cli::{
    build_aggregate_query, build_breakdown_query, build_client, build_create_site_request,
    build_reset_site_request, build_timeseries_query, build_update_site_request, resolve_account,
    AccountsCommand, AddAccountArgs, Cli, Commands, EventImportArgs, EventSendArgs, EventsCommand,
    OutputFormat, QueueCommand, Session, SetBudgetArgs, SiteCreateArgs, SiteDeleteArgs,
    SiteResetArgs, SiteUpdateArgs, SitesCommand, StatsAggregateArgs, StatsBreakdownArgs,
    StatsCommand, StatsRealtimeArgs, StatsTimeseriesArgs,
};
use plausible_cli::client::{ClientError, SiteSummary};
use plausible_cli::config::accounts::{AccountStore, AccountStoreError};
use plausible_cli::config::{ConfigPaths, IoFailure};
use plausible_cli::nonzero::NonZeroU32;
use plausible_cli::output::Output;
use plausible_cli::queue::{JobKind, JobResponse, WorkerError};
use plausible_cli::Error;
use std::path::PathBuf;

fn store() -> AccountStore {
    AccountStore::new(ConfigPaths::from_base_dir(PathBuf::from("/config")), Ok(())).expect("store")
}

fn added(alias: &str, key: &str) -> AddAccountArgs {
    AddAccountArgs {
        alias: alias.into(),
        api_key: key.into(),
        ..AddAccountArgs::default()
    }
}

fn store_with(aliases: &[&str]) -> AccountStore {
    let mut store = store();
    for alias in aliases {
        let command = AccountsCommand::Add(added(alias, "key"));
        handle_account_command(&mut store, &command, OutputFormat::Human).expect("add");
    }
    store
}

fn text(output: Output) -> String {
    match output {
        Output::Text(text) => text,
        other => panic!("unexpected output {:?}", other),
    }
}

fn invalid<T: std::fmt::Debug>(outcome: Result<T, Error>) -> String {
    match outcome {
        Err(Error::InvalidInput(message)) => message,
        other => panic!("unexpected outcome {:?}", other),
    }
}

fn send_args() -> EventSendArgs {
    EventSendArgs { data: None, file: None, stdin: false, domain: None }
}

fn import_args() -> EventImportArgs {
    EventImportArgs { file: None, stdin: true, dry_run: false, domain: None }
}

fn site(domain: &str) -> SiteSummary {
    SiteSummary {
        domain: domain.into(),
        timezone: None,
        is_main_site: None,
        public: Some(true),
        verified: None,
    }
}

#[test]
fn timeseries_builder_copies_fields() {
    let args = StatsTimeseriesArgs {
        site: "example.com".into(),
        metrics: vec!["visitors".into()],
        period: Some("7d".into()),
        date: Some("2024-01-01,2024-01-07".into()),
        filters: vec!["event:page==/docs".into()],
        properties: vec!["visit:source".into()],
        compare: Some("previous_period".into()),
        interval: Some("date".into()),
        sort: Some("visitors:desc".into()),
        limit: Some(10),
        page: Some(2),
    };

    let query = build_timeseries_query(&args);
    assert_eq!(query.site_id, "example.com");
    assert_eq!(query.metrics, vec!["visitors"]);
    assert_eq!(query.period.as_deref(), Some("7d"));
    assert_eq!(query.interval.as_deref(), Some("date"));
    assert_eq!(query.limit, Some(10));
    assert_eq!(query.page, Some(2));
    assert_eq!(query.filters, vec!["event:page==/docs"]);
    assert_eq!(query.properties, vec!["visit:source"]);
}

#[test]
fn breakdown_builder_includes_property_and_include() {
    let args = StatsBreakdownArgs {
        site: "example.com".into(),
        property: "event:page".into(),
        metrics: vec!["visitors".into(), "pageviews".into()],
        period: Some("30d".into()),
        date: None,
        filters: vec![],
        properties: vec![],
        compare: Some("previous_period".into()),
        sort: Some("visitors:desc".into()),
        limit: Some(25),
        page: Some(1),
        included: Some("previous".into()),
    };

    let query = build_breakdown_query(&args);
    assert_eq!(query.property, "event:page");
    assert_eq!(query.metrics, vec!["visitors", "pageviews"]);
    assert_eq!(query.included.as_deref(), Some("previous"));
    assert_eq!(query.limit, Some(25));
}

#[test]
fn parse_event_json_applies_domain_override() {
    let domain = Some(String::from("example.com"));
    let value = parse_event_json(r#"{"name":"Signup"}"#, &domain).expect("parse");
    assert_eq!(
        value.get("domain").and_then(|v| v.as_str()),
        Some("example.com")
    );
}

#[test]
fn parse_ndjson_parses_multiple_events() {
    let domain = None;
    let events =
        parse_ndjson("{\"name\":\"Signup\"}\n{\"name\":\"Upgrade\"}\n", &domain).expect("ndjson");
    assert_eq!(events.len(), 2);
    assert_eq!(
        events[0].get("name").and_then(|v| v.as_str()),
        Some("Signup")
    );
}

#[test]
fn parse_ndjson_errors_when_empty() {
    let err = parse_ndjson("\n\n", &None).expect_err("empty");
    match err {
        Error::InvalidInput(msg) => assert!(msg.contains("no events")),
        _ => panic!("unexpected error"),
    }
}

#[test]
fn build_create_site_request_sets_optional_fields() {
    let args = SiteCreateArgs {
        domain: "example.com".into(),
        timezone: Some("UTC".into()),
        public: Some(true),
    };
    let request = build_create_site_request(&args);
    assert_eq!(request.domain, "example.com");
    assert_eq!(request.timezone.as_deref(), Some("UTC"));
    assert_eq!(request.public, Some(true));
}

#[test]
fn build_update_site_request_respects_options() {
    let args = SiteUpdateArgs {
        site: "example.com".into(),
        timezone: Some("Europe/Berlin".into()),
        public: Some(false),
        main_site: Some(true),
    };
    let (site_id, request) = build_update_site_request(&args);
    assert_eq!(site_id, "example.com");
    assert_eq!(request.timezone.as_deref(), Some("Europe/Berlin"));
    assert_eq!(request.public, Some(false));
    assert_eq!(request.main_site, Some(true));
}

#[test]
fn build_reset_site_request_handles_optional_date() {
    let args = SiteResetArgs {
        site: "example.com".into(),
        date: Some("2024-01-01".into()),
    };
    let (site_id, request) = build_reset_site_request(&args);
    assert_eq!(site_id, "example.com");
    assert_eq!(request.date.as_deref(), Some("2024-01-01"));
}

#[test]
fn aggregate_builder_copies_fields() {
    let args = StatsAggregateArgs {
        site: "example.com".into(),
        metrics: vec!["visitors".into()],
        filters: vec!["a".into(), "b".into()],
        interval: Some("week".into()),
        page: Some(3),
        ..StatsAggregateArgs::default()
    };
    let query = build_aggregate_query(&args);
    assert_eq!(query.site_id, "example.com");
    assert_eq!(query.metrics, vec!["visitors"]);
    assert_eq!(query.filters, vec!["a", "b"]);
    assert_eq!(query.interval.as_deref(), Some("week"));
    assert_eq!(query.page, Some(3));
    assert_eq!(query.period, None);
}

#[test]
fn accounts_list_empty_snapshot() {
    let mut store = store();
    let done = handle_account_command(&mut store, &AccountsCommand::List, OutputFormat::Human)
        .expect("list");
    assert!(matches!(done.effect, StoreEffect::Keep));
    assert_eq!(
        text(done.output),
        "+-------+-------+-------+---------+--------------+\n\
         | alias | label | email | default | daily_budget |\n\
         +-------+-------+-------+---------+--------------+"
    );
}

#[test]
fn accounts_list_json_after_add() {
    let mut store = store();
    let primary = AddAccountArgs {
        label: Some("Primary".into()),
        ..added("primary", "key-primary")
    };
    handle_account_command(&mut store, &AccountsCommand::Add(primary), OutputFormat::Human)
        .expect("add primary");
    let backup = added("backup", "key-backup");
    handle_account_command(&mut store, &AccountsCommand::Add(backup), OutputFormat::Human)
        .expect("add backup");
    let budget = SetBudgetArgs { alias: "backup".into(), daily: Some(321), clear: false };
    handle_account_command(&mut store, &AccountsCommand::Budget(budget), OutputFormat::Human)
        .expect("budget");

    let done = handle_account_command(&mut store, &AccountsCommand::List, OutputFormat::Json)
        .expect("list");
    assert_eq!(
        text(done.output),
        r#"[
  {
    "alias": "backup",
    "daily_budget": 321,
    "default": false,
    "description": null,
    "email": null,
    "label": null
  },
  {
    "alias": "primary",
    "daily_budget": null,
    "default": true,
    "description": null,
    "email": null,
    "label": "Primary"
  }
]"#
    );
}

#[test]
fn adding_an_account_stores_its_key() {
    let mut store = store();
    let command = AccountsCommand::Add(added("work", " key "));
    let done =
        handle_account_command(&mut store, &command, OutputFormat::Human).expect("add");
    assert_eq!(text(done.output), "Added account 'work'.");
    match done.effect {
        StoreEffect::SaveWithKey(key) => {
            assert_eq!(key.path.segments, vec!["accounts", "work.key"]);
            assert_eq!(key.contents, " key ");
        }
        other => panic!("unexpected effect {:?}", other),
    }
}

#[test]
fn refused_account_commands_leave_the_store_alone() {
    let mut store = store_with(&["work"]);
    let commands = vec![
        AccountsCommand::Add(added("work", "key")),
        AccountsCommand::Add(added("a/b", "key")),
        AccountsCommand::Add(added("other", "  ")),
        AccountsCommand::Use { alias: "other".into() },
        AccountsCommand::Remove { alias: "other".into() },
        AccountsCommand::Budget(SetBudgetArgs { alias: "other".into(), daily: Some(1), clear: false }),
    ];
    for command in &commands {
        assert!(handle_account_command(&mut store, command, OutputFormat::Human).is_err());
        assert_eq!(store.list_accounts().len(), 1);
        assert_eq!(store.default_alias().as_deref(), Some("work"));
    }
}

#[test]
fn use_and_remove_report_what_they_did() {
    let mut store = store_with(&["a", "b"]);
    let done = handle_account_command(
        &mut store,
        &AccountsCommand::Use { alias: "b".into() },
        OutputFormat::Human,
    )
    .expect("use");
    assert_eq!(text(done.output), "Set 'b' as the default account.");
    assert!(matches!(done.effect, StoreEffect::Save));
    assert_eq!(store.default_alias().as_deref(), Some("b"));

    let done = handle_account_command(
        &mut store,
        &AccountsCommand::Remove { alias: "b".into() },
        OutputFormat::Human,
    )
    .expect("remove");
    assert_eq!(text(done.output), "Removed account 'b'.");
    match done.effect {
        StoreEffect::SaveWithoutKey(path) => assert_eq!(path.segments, vec!["accounts", "b.key"]),
        other => panic!("unexpected effect {:?}", other),
    }
    assert_eq!(store.default_alias().as_deref(), Some("a"));
}

#[test]
fn export_is_json_if_either_flag_says_so() {
    let mut store = store_with(&["a"]);
    for (json, format) in [(true, OutputFormat::Human), (false, OutputFormat::Json)] {
        let done =
            handle_account_command(&mut store, &AccountsCommand::Export { json }, format)
                .expect("export");
        assert_eq!(
            text(done.output),
            r#"[
  {
    "alias": "a",
    "is_default": true,
    "label": null,
    "email": null,
    "description": null,
    "daily_budget": null
  }
]"#
        );
    }
    let done = handle_account_command(
        &mut store,
        &AccountsCommand::Export { json: false },
        OutputFormat::Human,
    )
    .expect("export");
    assert_eq!(
        text(done.output),
        "+-------+-------+-------+---------+-------------+--------------+\n\
         | alias | label | email | default | description | daily_budget |\n\
         +-------+-------+-------+---------+-------------+--------------+\n\
         | a     | n/a   | n/a   | yes     |             | -            |\n\
         +-------+-------+-------+---------+-------------+--------------+"
    );
}

#[test]
fn budgets_are_set_and_cleared() {
    let args = |daily: Option<u32>, clear: bool| SetBudgetArgs { alias: "a".into(), daily, clear };
    assert_eq!(choose_budget(&args(Some(5), false)).expect("set").map(NonZeroU32::get), Some(5));
    assert!(choose_budget(&args(Some(0), false)).expect("zero").is_none());
    assert!(choose_budget(&args(None, true)).expect("clear").is_none());
    assert!(choose_budget(&args(None, false)).expect("omitted").is_none());
    assert_eq!(
        invalid(choose_budget(&args(Some(5), true))),
        "use either --daily or --clear when configuring budgets"
    );

    let mut store = store_with(&["a"]);
    let done = handle_account_command(
        &mut store,
        &AccountsCommand::Budget(args(Some(5), false)),
        OutputFormat::Human,
    )
    .expect("set");
    assert_eq!(text(done.output), "Set daily budget for 'a' to 5 requests.");
    assert_eq!(store.list_accounts()[0].daily_budget.map(NonZeroU32::get), Some(5));
    let done = handle_account_command(
        &mut store,
        &AccountsCommand::Budget(args(None, true)),
        OutputFormat::Human,
    )
    .expect("clear");
    assert_eq!(text(done.output), "Cleared daily budget for 'a'.");
    assert!(store.list_accounts()[0].daily_budget.is_none());
}

#[test]
fn account_is_resolved_from_flag_or_default() {
    let empty = store();
    assert!(matches!(resolve_account(&empty, &None), Err(Error::NoDefaultAccount)));
    assert_eq!(resolve_account(&empty, &Some("x".into())).expect("flag"), "x");
    let store = store_with(&["a", "b"]);
    assert_eq!(resolve_account(&store, &None).expect("default"), "a");
    assert_eq!(
        Error::NoDefaultAccount.message(),
        "no default account configured; add an account or pass --account"
    );
}

fn cli(base_url: Option<&str>) -> Cli {
    Cli {
        account: None,
        output: OutputFormat::default(),
        base_url: base_url.map(String::from),
        command: Commands::Status,
    }
}

#[test]
fn client_uses_the_base_url_that_is_asked_for() {
    let store = store_with(&["a"]);
    let account = store.get_account("a", Ok("key\n".into())).expect("account");
    let client = build_client(&cli(None), &account).expect("client");
    assert_eq!(client.base_url(), "https://plausible.io/");
    let client = build_client(&cli(Some("https://stats.example.com/sub")), &account).expect("client");
    assert_eq!(client.base_url(), "https://stats.example.com/sub/");
    assert!(matches!(
        build_client(&cli(Some("nonsense")), &account),
        Err(Error::Client(ClientError::InvalidBaseUrl(_)))
    ));
    let blank = store.get_account("a", Ok(" \n".into())).expect("account");
    assert!(matches!(
        build_client(&cli(None), &blank),
        Err(Error::Client(ClientError::Validation(_)))
    ));
}

#[test]
fn session_is_limited_by_the_budget_of_its_account() {
    let mut store = store_with(&["a"]);
    store.set_daily_budget("a", NonZeroU32::new(50)).expect("budget");
    let session = Session::open(&cli(None), &store, "a".into(), Ok("key".into())).expect("session");
    assert_eq!(session.alias, "a");
    assert_eq!(session.limits.hourly_quota.get(), 600);
    assert_eq!(session.limits.daily_quota.map(NonZeroU32::get), Some(50));
    assert!(matches!(
        Session::open(&cli(None), &store, "b".into(), Ok("key".into())),
        Err(Error::Accounts(AccountStoreError::AccountNotFound(_)))
    ));
    let failure = IoFailure { path: "\"/config/accounts/a.key\"".into(), source: "denied".into() };
    assert!(matches!(
        Session::open(&cli(None), &store, "a".into(), Err(failure)),
        Err(Error::Accounts(AccountStoreError::Io(_)))
    ));
}

#[test]
fn exactly_one_source_of_events_is_accepted() {
    assert_eq!(
        invalid(event_source(&send_args())),
        "provide one of --data, --file, or --stdin for events send"
    );
    let both = EventSendArgs { data: Some("{}".into()), stdin: true, ..send_args() };
    assert_eq!(
        invalid(event_source(&both)),
        "choose only one of --data, --file, or --stdin for events send"
    );
    let inline = EventSendArgs { data: Some("{}".into()), ..send_args() };
    assert!(matches!(event_source(&inline), Ok(PayloadSource::Inline(d)) if d == "{}"));
    let file = EventSendArgs { file: Some(PathBuf::from("e.json")), ..send_args() };
    assert!(matches!(event_source(&file), Ok(PayloadSource::File(p)) if p == PathBuf::from("e.json")));
    let stdin = EventSendArgs { stdin: true, ..send_args() };
    assert!(matches!(event_source(&stdin), Ok(PayloadSource::Stdin)));

    let none = EventImportArgs { stdin: false, ..import_args() };
    assert_eq!(invalid(import_source(&none)), "provide --file or --stdin for events import");
    let both = EventImportArgs { file: Some(PathBuf::from("e")), ..import_args() };
    assert_eq!(invalid(import_source(&both)), "choose either --file or --stdin for events import");
    assert!(matches!(import_source(&import_args()), Ok(PayloadSource::Stdin)));
    let file = EventImportArgs { file: Some(PathBuf::from("e")), stdin: false, ..import_args() };
    assert!(matches!(import_source(&file), Ok(PayloadSource::File(_))));
}

#[test]
fn event_payload_faults_are_told_apart() {
    assert_eq!(invalid(parse_event_json(" \n\t", &None)), "event payload is empty");
    assert_eq!(
        invalid(parse_event_json("[1]", &None)),
        "event payload must be a JSON object"
    );
    match parse_event_json("{", &None) {
        Err(Error::Serialization(message)) => assert!(message.contains("EOF")),
        other => panic!("unexpected outcome {:?}", other),
    }
    match load_event_payload(&send_args(), Err("gone".into())) {
        Err(Error::Runtime(message)) => assert_eq!(message, "gone"),
        other => panic!("unexpected outcome {:?}", other),
    }
    match accept_event(Err("no".into()), &None) {
        Err(Error::Serialization(message)) => assert_eq!(message, "no"),
        other => panic!("unexpected outcome {:?}", other),
    }
}

#[test]
fn domain_override_replaces_only_the_domain() {
    let domain = Some(String::from("b.example"));
    let event = parse_event_json(r#"{"name":"x","domain":"a.example","n":1}"#, &domain)
        .expect("parse");
    assert_eq!(event.to_string(), r#"{"domain":"b.example","n":1,"name":"x"}"#);
    let event = parse_event_json(r#"{"name":"x","domain":"a.example"}"#, &None).expect("parse");
    assert_eq!(event.to_string(), r#"{"domain":"a.example","name":"x"}"#);
}

#[test]
fn import_skips_blank_lines_and_counts_lines_from_one() {
    let events = parse_ndjson("\n {\"a\":1} \r\n\t\n{\"a\":2}", &None).expect("ndjson");
    assert_eq!(events.len(), 2);
    assert_eq!(events[1].to_string(), r#"{"a":2}"#);
    assert_eq!(
        invalid(parse_ndjson("{\"a\":1}\n\n7\n", &None)),
        "line 3 must be a JSON object"
    );
    let message = invalid(parse_ndjson("{\"a\":1}\n{\n{\n", &None));
    assert!(message.starts_with("failed to parse line 2: "));
    assert_eq!(invalid(accept_line(9, Err("bad".into()), &None)), "failed to parse line 9: bad");
    assert!(matches!(load_import_payload(&import_args(), Err("x".into())), Err(Error::Runtime(_))));
}

#[test]
fn import_sets_the_domain_of_every_event() {
    let domain = Some(String::from("d"));
    let events = parse_ndjson("{\"a\":1}\n{\"domain\":\"e\"}\n", &domain).expect("ndjson");
    for event in &events {
        assert_eq!(event.get("domain").and_then(|v| v.as_str()), Some("d"));
    }
}

#[test]
fn only_yes_means_yes() {
    for answer in ["yes", "y", "YES\n", "  Y \r\n", "Yes"] {
        assert!(confirm_deletion(answer));
    }
    for answer in ["", "no", "yess", "ye s", "yes!"] {
        assert!(!confirm_deletion(answer));
    }
    assert!(is_affirmative("yes"));
    assert!(!is_affirmative("YES"));
}

fn sites(command: SitesCommand) -> Commands {
    Commands::Sites { command }
}

fn deletion(force: bool) -> SiteDeleteArgs {
    SiteDeleteArgs { site: "example.com".into(), force }
}

#[test]
fn deletion_is_confirmed_unless_forced() {
    let asked = plan(&sites(SitesCommand::Delete(deletion(false))), "a", OutputFormat::Human);
    match asked {
        Ok(Step::Confirm { prompt, aside }) => {
            assert_eq!(prompt, "Delete site 'example.com'? Type 'yes' to confirm:");
            assert!(!aside);
        }
        other => panic!("unexpected step {:?}", other),
    }
    let forced = plan(&sites(SitesCommand::Delete(deletion(true))), "a", OutputFormat::Human);
    assert!(matches!(forced, Ok(Step::Submit { .. })));
    match confirmed(&deletion(false), "a", OutputFormat::Human, Ok("no\n".into())) {
        Ok(Step::Done(output)) => assert_eq!(text(output), "Aborted."),
        other => panic!("unexpected step {:?}", other),
    }
    match confirmed(&deletion(false), "a", OutputFormat::Human, Ok("yes\n".into())) {
        Ok(Step::Submit { request, weight }) => {
            assert_eq!(request.account, "a");
            assert!(matches!(request.kind, JobKind::SiteDelete { site_id } if site_id == "example.com"));
            assert_eq!(weight.get(), 1);
        }
        other => panic!("unexpected step {:?}", other),
    }
    assert!(matches!(
        confirmed(&deletion(false), "a", OutputFormat::Human, Err("closed".into())),
        Err(Error::Runtime(_))
    ));
}

#[test]
fn commands_submit_the_jobs_they_ask_for() {
    let kind = |command: Commands| match plan(&command, "a", OutputFormat::Human) {
        Ok(Step::Submit { request, weight }) => {
            assert_eq!(request.account, "a");
            assert_eq!(weight.get(), 1);
            request.kind
        }
        other => panic!("unexpected step {:?}", other),
    };
    assert!(matches!(kind(sites(SitesCommand::List)), JobKind::ListSites));
    let create = SiteCreateArgs { domain: "d".into(), ..SiteCreateArgs::default() };
    assert!(matches!(
        kind(sites(SitesCommand::Create(create))),
        JobKind::SiteCreate { request } if request.domain == "d"
    ));
    let update = SiteUpdateArgs { site: "s".into(), public: Some(true), ..SiteUpdateArgs::default() };
    assert!(matches!(
        kind(sites(SitesCommand::Update(update))),
        JobKind::SiteUpdate { site_id, request } if site_id == "s" && request.public == Some(true)
    ));
    let reset = SiteResetArgs { site: "s".into(), date: Some("2024-01-01".into()) };
    assert!(matches!(
        kind(sites(SitesCommand::Reset(reset))),
        JobKind::SiteReset { site_id, request }
            if site_id == "s" && request.date.as_deref() == Some("2024-01-01")
    ));
    let stats = |command: StatsCommand| Commands::Stats { command };
    let aggregate = StatsAggregateArgs { site: "s".into(), ..StatsAggregateArgs::default() };
    assert!(matches!(
        kind(stats(StatsCommand::Aggregate(aggregate))),
        JobKind::StatsAggregate { query } if query.site_id == "s"
    ));
    let timeseries = StatsTimeseriesArgs { site: "s".into(), ..StatsTimeseriesArgs::default() };
    assert!(matches!(
        kind(stats(StatsCommand::Timeseries(timeseries))),
        JobKind::StatsTimeseries { query } if query.site_id == "s"
    ));
    let breakdown = StatsBreakdownArgs { property: "p".into(), ..StatsBreakdownArgs::default() };
    assert!(matches!(
        kind(stats(StatsCommand::Breakdown(breakdown))),
        JobKind::StatsBreakdown { query } if query.property == "p"
    ));
    let realtime = StatsRealtimeArgs { site: "s".into() };
    assert!(matches!(
        kind(stats(StatsCommand::Realtime(realtime))),
        JobKind::StatsRealtime { site_id } if site_id == "s"
    ));
}

#[test]
fn other_commands_need_something_else_first() {
    let format = OutputFormat::Human;
    assert!(matches!(plan(&Commands::Status, "a", format), Ok(Step::ShowStatus)));
    let queue = |command: QueueCommand| Commands::Queue { command };
    assert!(matches!(plan(&queue(QueueCommand::Inspect), "a", format), Ok(Step::InspectQueue)));
    assert!(matches!(plan(&queue(QueueCommand::Drain), "a", format), Ok(Step::AwaitIdle)));
    let events = |command: EventsCommand| Commands::Events { command };
    let send = EventSendArgs { stdin: true, ..send_args() };
    assert!(matches!(
        plan(&events(EventsCommand::Send(send)), "a", format),
        Ok(Step::Load(PayloadSource::Stdin))
    ));
    assert!(matches!(
        plan(&events(EventsCommand::Import(import_args())), "a", format),
        Ok(Step::Load(PayloadSource::Stdin))
    ));
    assert!(matches!(
        plan(&events(EventsCommand::Send(send_args())), "a", format),
        Err(Error::InvalidInput(_))
    ));
}

#[test]
fn events_template_json_snapshot() {
    let command = Commands::Events { command: EventsCommand::Template };
    let sample = r#"{
  "device_type": "desktop",
  "domain": "example.com",
  "name": "Signup",
  "referrer": "https://google.com",
  "url": "https://example.com/signup",
  "utm_medium": "email",
  "utm_source": "newsletter"
}"#;
    match plan(&command, "acct", OutputFormat::Json) {
        Ok(Step::Done(output)) => assert_eq!(text(output), sample),
        other => panic!("unexpected step {:?}", other),
    }
    match plan(&command, "acct", OutputFormat::Human) {
        Ok(Step::Done(output)) => {
            assert_eq!(text(output), format!("Sample event payload:\n{}", sample))
        }
        other => panic!("unexpected step {:?}", other),
    }
}

#[test]
fn events_are_submitted_once_loaded() {
    let args = EventSendArgs { domain: Some("d".into()), ..send_args() };
    match event_loaded(&args, "a", Ok("{\"name\":\"x\"}\n".into())) {
        Ok(Step::Submit { request, weight }) => {
            assert_eq!(weight.get(), 1);
            match request.kind {
                JobKind::EventSend { event } => {
                    assert_eq!(event.to_string(), r#"{"domain":"d","name":"x"}"#)
                }
                other => panic!("unexpected job {:?}", other),
            }
        }
        other => panic!("unexpected step {:?}", other),
    }
    assert_eq!(invalid(event_loaded(&args, "a", Ok("".into()))), "event payload is empty");
}

#[test]
fn import_weighs_as_much_as_it_has_events() {
    let raw = String::from("{\"a\":1}\n{\"a\":2}\n{\"a\":3}\n");
    match import_loaded(&import_args(), "a", OutputFormat::Human, Ok(raw.clone())) {
        Ok(Step::Submit { request, weight }) => {
            assert_eq!(weight.get(), 3);
            assert!(matches!(request.kind, JobKind::EventsImport { events } if events.len() == 3));
        }
        other => panic!("unexpected step {:?}", other),
    }
    let dry = EventImportArgs { dry_run: true, ..import_args() };
    match import_loaded(&dry, "a", OutputFormat::Human, Ok(raw)) {
        Ok(Step::Done(output)) => assert_eq!(text(output), "Dry run: would import 3 events."),
        other => panic!("unexpected step {:?}", other),
    }
    let events = parse_ndjson("{}", &None).expect("ndjson");
    assert!(matches!(
        import_events(events, false, "a", OutputFormat::Human),
        Ok(Step::Submit { .. })
    ));
    assert_eq!(
        invalid(import_loaded(&dry, "a", OutputFormat::Human, Ok("\n".into()))),
        "no events found in input"
    );
}

#[test]
fn counts_are_printed_in_words_or_as_json() {
    let json = |outcome: Result<Output, Error>| text(outcome.expect("output"));
    assert_eq!(
        json(render_dry_run(2, OutputFormat::Json)),
        "{\n  \"count\": 2,\n  \"dry_run\": true\n}"
    );
    assert_eq!(json(render_dry_run(2, OutputFormat::Human)), "Dry run: would import 2 events.");
    assert_eq!(json(render_drained(OutputFormat::Json)), "{\n  \"drained\": true\n}");
    assert_eq!(json(render_drained(OutputFormat::Human)), "Queue drained.");
}

#[test]
fn responses_are_printed_for_their_commands() {
    let show = |command: &Commands, response: JobResponse| {
        respond(command, OutputFormat::Human, Ok(response)).expect("outcome").map(text)
    };
    let list = sites(SitesCommand::List);
    let table = show(&list, JobResponse::Sites(vec![site("example.com")])).expect("table");
    assert_eq!(
        table,
        "+-------------+----------+--------+----------+\n\
         | domain      | timezone | public | verified |\n\
         +-------------+----------+--------+----------+\n\
         | example.com | n/a      | true   | n/a      |\n\
         +-------------+----------+--------+----------+"
    );
    assert_eq!(show(&list, JobResponse::Acknowledged), None);
    let reset = sites(SitesCommand::Reset(SiteResetArgs::default()));
    assert_eq!(
        show(&reset, JobResponse::SiteReset).as_deref(),
        Some("Site statistics reset queued successfully.")
    );
    let delete = sites(SitesCommand::Delete(deletion(true)));
    assert_eq!(
        show(&delete, JobResponse::SiteDeleted).as_deref(),
        Some("Site 'example.com' deleted.")
    );
    assert_eq!(show(&delete, JobResponse::SiteReset), None);
    let send = Commands::Events { command: EventsCommand::Send(send_args()) };
    assert_eq!(
        show(&send, JobResponse::EventAck).as_deref(),
        Some("Event dispatched to Plausible.")
    );
    assert_eq!(
        show(&send, JobResponse::EventsProcessed { processed: 2 }).as_deref(),
        Some("Processed batch containing 2 events.")
    );
    assert_eq!(
        show(&send, JobResponse::Custom(serde_json::Value::from(1u64))).as_deref(),
        Some("1")
    );
    let import = Commands::Events { command: EventsCommand::Import(import_args()) };
    assert_eq!(
        show(&import, JobResponse::EventsProcessed { processed: 2 }).as_deref(),
        Some("Imported 2 events.")
    );
    assert_eq!(show(&import, JobResponse::Acknowledged).as_deref(), Some("Import completed."));
    match respond(&import, OutputFormat::Human, Ok(JobResponse::SiteReset)) {
        Ok(Some(Output::Response { title, response })) => {
            assert_eq!(title, "Import response");
            assert_eq!(format!("{:?}", response), "SiteReset");
        }
        other => panic!("unexpected outcome {:?}", other),
    }
    match respond(&list, OutputFormat::Human, Err(WorkerError::Execution("no".into()))) {
        Err(error) => assert_eq!(error.message(), "execution error: no"),
        other => panic!("unexpected outcome {:?}", other),
    }
}

/// The JSON that is printed, read back.
fn document(output: Output) -> serde_json::Value {
    serde_json::from_str(&text(output)).expect("JSON")
}

fn object(members: &[(&str, serde_json::Value)]) -> serde_json::Value {
    let mut map = serde_json::Map::new();
    for (name, value) in members {
        map.insert((*name).to_string(), value.clone());
    }
    serde_json::Value::Object(map)
}

#[test]
fn account_commands_print_documents_for_programs() {
    let mut store = store();
    let mut run = |command: AccountsCommand| {
        document(
            handle_account_command(&mut store, &command, OutputFormat::Json)
                .expect("outcome")
                .output,
        )
    };
    assert_eq!(
        run(AccountsCommand::Add(added("a", "key"))),
        object(&[("alias", "a".into()), ("added", true.into())])
    );
    assert_eq!(
        run(AccountsCommand::Use { alias: "a".into() }),
        object(&[("alias", "a".into()), ("default", true.into())])
    );
    let budget = SetBudgetArgs { alias: "a".into(), daily: Some(7), clear: false };
    assert_eq!(
        run(AccountsCommand::Budget(budget)),
        object(&[("alias", "a".into()), ("daily_budget", 7.into())])
    );
    let cleared = SetBudgetArgs { alias: "a".into(), daily: None, clear: true };
    assert_eq!(
        run(AccountsCommand::Budget(cleared)),
        object(&[("alias", "a".into()), ("daily_budget", serde_json::Value::Null)])
    );
    assert_eq!(
        run(AccountsCommand::Remove { alias: "a".into() }),
        object(&[("alias", "a".into()), ("removed", true.into())])
    );
    assert_eq!(run(AccountsCommand::List), serde_json::Value::Array(vec![]));
}

#[test]
fn refused_account_commands_keep_the_store_for_programs_too() {
    let mut store = store_with(&["a"]);
    for command in [
        AccountsCommand::Add(added("a", "key")),
        AccountsCommand::Use { alias: "b".into() },
        AccountsCommand::Remove { alias: "b".into() },
    ] {
        assert!(matches!(
            handle_account_command(&mut store, &command, OutputFormat::Json),
            Err(Error::Accounts(_))
        ));
        assert_eq!(store.default_alias().as_deref(), Some("a"));
    }
}

#[test]
fn deletion_that_is_called_off_is_a_document_for_programs() {
    match plan(&sites(SitesCommand::Delete(deletion(false))), "a", OutputFormat::Json) {
        Ok(Step::Confirm { aside, .. }) => assert!(aside),
        other => panic!("unexpected step {:?}", other),
    }
    match confirmed(&deletion(false), "a", OutputFormat::Json, Ok("no\n".into())) {
        Ok(Step::Done(output)) => assert_eq!(
            text(output),
            "{\n  \"deleted\": false,\n  \"site\": \"example.com\"\n}"
        ),
        other => panic!("unexpected step {:?}", other),
    }
}

#[test]
fn dry_run_is_a_document_for_programs() {
    let dry = EventImportArgs { dry_run: true, ..import_args() };
    match import_loaded(&dry, "a", OutputFormat::Json, Ok("{}\n{}\n".into())) {
        Ok(Step::Done(output)) => assert_eq!(
            document(output),
            object(&[("dry_run", true.into()), ("count", 2.into())])
        ),
        other => panic!("unexpected step {:?}", other),
    }
}

#[test]
fn responses_are_documents_for_programs() {
    let show = |command: &Commands, response: JobResponse| {
        let printed = respond(command, OutputFormat::Json, Ok(response)).expect("outcome");
        document(printed.expect("output"))
    };
    let reset_args = SiteResetArgs { site: "s".into(), ..SiteResetArgs::default() };
    let reset = sites(SitesCommand::Reset(reset_args));
    let was_reset = object(&[("site", "s".into()), ("reset", true.into())]);
    assert_eq!(show(&reset, JobResponse::SiteReset), was_reset);
    assert_eq!(show(&reset, JobResponse::Acknowledged), was_reset);
    let delete = sites(SitesCommand::Delete(deletion(true)));
    let was_deleted = object(&[("site", "example.com".into()), ("deleted", true.into())]);
    assert_eq!(show(&delete, JobResponse::SiteDeleted), was_deleted);
    assert_eq!(show(&delete, JobResponse::Acknowledged), was_deleted);
    let send = Commands::Events { command: EventsCommand::Send(send_args()) };
    let sent = object(&[("sent", true.into())]);
    assert_eq!(show(&send, JobResponse::EventAck), sent);
    assert_eq!(show(&send, JobResponse::Acknowledged), sent);
    let import = Commands::Events { command: EventsCommand::Import(import_args()) };
    let processed = object(&[("processed", 4.into())]);
    assert_eq!(show(&import, JobResponse::EventsProcessed { processed: 4 }), processed);
    assert_eq!(show(&send, JobResponse::EventsProcessed { processed: 4 }), processed);
    let acknowledged = object(&[("acknowledged", true.into())]);
    assert_eq!(show(&import, JobResponse::EventAck), acknowledged);
    assert_eq!(show(&import, JobResponse::Acknowledged), acknowledged);
    assert_eq!(
        show(&import, JobResponse::Custom(serde_json::Value::from(1u64))),
        serde_json::Value::from(1u64)
    );
}

#[test]
fn unexpected_responses_are_documents_for_programs() {
    let send = Commands::Events { command: EventsCommand::Send(send_args()) };
    let import = Commands::Events { command: EventsCommand::Import(import_args()) };
    let list = sites(SitesCommand::List);
    for command in [&send, &import, &list] {
        let show = |response: JobResponse| {
            respond(command, OutputFormat::Json, Ok(response)).expect("outcome").expect("output")
        };
        assert_eq!(document(show(JobResponse::SiteReset)), object(&[("reset", true.into())]));
        assert_eq!(document(show(JobResponse::SiteDeleted)), object(&[("deleted", true.into())]));
        let created = document(show(JobResponse::SiteCreated(site("d"))));
        assert_eq!(created.get("domain").and_then(|v| v.as_str()), Some("d"));
        assert_eq!(document(show(JobResponse::Sites(vec![]))), serde_json::Value::Array(vec![]));
    }
    assert!(matches!(
        respond(&send, OutputFormat::Json, Err(WorkerError::Execution("no".into()))),
        Err(Error::Worker(_))
    ));
}
