//! The command line: what commands there are, and what each of them asks for.

use crate::client;
use crate::client::{
    AggregateQuery, BreakdownQuery, ClientError, CreateSiteRequest, PlausibleClient,
    ResetSiteStatsRequest, TimeseriesQuery, UpdateSiteRequest,
};
use crate::config::accounts::{AccountRecord, AccountStore, AccountStoreError, StateView};
use crate::config::IoFailure;
use crate::nonzero;
use crate::rate_limit;
use crate::rate_limit::RateLimitConfig;
use crate::text;
use crate::Error;
use std::path::PathBuf;
use vstd::prelude::*;

pub mod accounts;
pub mod events;
pub mod execute;
pub mod executor;

pub use crate::output::OutputFormat;

verus! {

/// An invocation of the program.
#[derive(Debug)]
pub struct Cli {
    /// The account to use instead of the default.
    pub account: Option<String>,
    pub output: OutputFormat,
    /// The base URL of a self-hosted instance.
    pub base_url: Option<String>,
    pub command: Commands,
}

/// The commands.
#[derive(Debug, Clone)]
pub enum Commands {
    Status,
    Sites { command: SitesCommand },
    Stats { command: StatsCommand },
    Events { command: EventsCommand },
    Queue { command: QueueCommand },
    Accounts { command: AccountsCommand },
}

/// Commands on sites.
#[derive(Debug, Clone)]
pub enum SitesCommand {
    List,
    Create(SiteCreateArgs),
    Update(SiteUpdateArgs),
    Reset(SiteResetArgs),
    Delete(SiteDeleteArgs),
}

/// Commands that fetch statistics.
#[derive(Debug, Clone)]
pub enum StatsCommand {
    Aggregate(StatsAggregateArgs),
    Timeseries(StatsTimeseriesArgs),
    Breakdown(StatsBreakdownArgs),
    Realtime(StatsRealtimeArgs),
}

/// Commands on custom events.
#[derive(Debug, Clone)]
pub enum EventsCommand {
    Template,
    Send(EventSendArgs),
    Import(EventImportArgs),
}

/// Commands on the queue.
#[derive(Debug, Clone)]
pub enum QueueCommand {
    Inspect,
    Drain,
}

/// Commands on stored accounts.
#[derive(Debug, Clone)]
pub enum AccountsCommand {
    List,
    Add(AddAccountArgs),
    Use { alias: String },
    Remove { alias: String },
    Export { json: bool },
    Budget(SetBudgetArgs),
}

/// An account to be added.
#[derive(Debug, Clone, Default)]
pub struct AddAccountArgs {
    pub alias: String,
    pub api_key: String,
    pub label: Option<String>,
    pub email: Option<String>,
    pub description: Option<String>,
}

/// A daily budget to be set or cleared.
#[derive(Debug, Clone, Default)]
pub struct SetBudgetArgs {
    pub alias: String,
    /// Requests per day; the budget is cleared if this is omitted or zero.
    pub daily: Option<u32>,
    pub clear: bool,
}

/// An aggregate query.
#[derive(Debug, Clone, Default)]
pub struct StatsAggregateArgs {
    pub site: String,
    pub metrics: Vec<String>,
    pub period: Option<String>,
    pub date: Option<String>,
    pub filters: Vec<String>,
    pub properties: Vec<String>,
    pub compare: Option<String>,
    pub interval: Option<String>,
    pub sort: Option<String>,
    pub limit: Option<u32>,
    pub page: Option<u32>,
}

/// A site to be created.
#[derive(Debug, Clone, Default)]
pub struct SiteCreateArgs {
    pub domain: String,
    pub timezone: Option<String>,
    pub public: Option<bool>,
}

/// A site to be updated.
#[derive(Debug, Clone, Default)]
pub struct SiteUpdateArgs {
    pub site: String,
    pub timezone: Option<String>,
    pub public: Option<bool>,
    pub main_site: Option<bool>,
}

/// A site whose statistics are to be reset.
#[derive(Debug, Clone, Default)]
pub struct SiteResetArgs {
    pub site: String,
    pub date: Option<String>,
}

/// A site to be deleted.
#[derive(Debug, Clone, Default)]
pub struct SiteDeleteArgs {
    pub site: String,
    /// Whether to go ahead without asking.
    pub force: bool,
}

/// A timeseries query.
#[derive(Debug, Clone, Default)]
pub struct StatsTimeseriesArgs {
    pub site: String,
    pub metrics: Vec<String>,
    pub period: Option<String>,
    pub date: Option<String>,
    pub filters: Vec<String>,
    pub properties: Vec<String>,
    pub compare: Option<String>,
    pub interval: Option<String>,
    pub sort: Option<String>,
    pub limit: Option<u32>,
    pub page: Option<u32>,
}

/// A breakdown query.
#[derive(Debug, Clone, Default)]
pub struct StatsBreakdownArgs {
    pub site: String,
    pub property: String,
    pub metrics: Vec<String>,
    pub period: Option<String>,
    pub date: Option<String>,
    pub filters: Vec<String>,
    pub properties: Vec<String>,
    pub compare: Option<String>,
    pub sort: Option<String>,
    pub limit: Option<u32>,
    pub page: Option<u32>,
    pub included: Option<String>,
}

/// A query for the visitors at this moment.
#[derive(Debug, Clone, Default)]
pub struct StatsRealtimeArgs {
    pub site: String,
}

/// An event to be sent.
#[derive(Debug, Clone)]
pub struct EventSendArgs {
    /// The event itself.
    pub data: Option<String>,
    /// The file that holds the event.
    pub file: Option<PathBuf>,
    /// Whether the event is read from the standard input.
    pub stdin: bool,
    /// The domain that the event gets instead of its own.
    pub domain: Option<String>,
}

/// Events to be imported.
#[derive(Debug, Clone)]
pub struct EventImportArgs {
    /// The file that holds one event per line.
    pub file: Option<PathBuf>,
    /// Whether the events are read from the standard input.
    pub stdin: bool,
    /// Whether the events are only counted.
    pub dry_run: bool,
    /// The domain that the events get instead of their own.
    pub domain: Option<String>,
}

/// Whether an outcome is the account that a command uses: the one that is asked for, or else the
/// default.
pub open spec fn resolves(
    outcome: Result<String, Error>,
    state: StateView,
    asked: Option<Seq<char>>,
) -> bool {
    match asked {
        Some(alias) => outcome matches Ok(a) && a@ == alias,
        None => match state.default_account {
            Some(alias) => outcome matches Ok(a) && a@ == alias,
            None => outcome matches Err(Error::NoDefaultAccount),
        },
    }
}

/// The account that a command uses: the one that is asked for, or else the default.
pub fn resolve_account(store: &AccountStore, override_alias: &Option<String>) -> (outcome: Result<
    String,
    Error,
>)
    ensures
        resolves(outcome, store@, override_alias.deep_view()),
{
    match override_alias {
        Some(alias) => Ok(alias.clone()),
        None => match store.default_alias() {
            Some(alias) => Ok(alias),
            None => Err(Error::NoDefaultAccount),
        },
    }
}

/// Whether an attempt to make a client for an account came out as it should: a base URL that is
/// none is refused first, then an empty key, then a base URL that cannot be normalised.
pub open spec fn client_made(
    outcome: Result<PlausibleClient, Error>,
    api_key: Seq<char>,
    base: Seq<char>,
) -> bool {
    match client::url_parsed(base) {
        Err(e) => outcome matches Err(Error::Client(ClientError::InvalidBaseUrl(m))) && m@ == e,
        Ok(url) => if text::trimmed(api_key).len() == 0 {
            outcome matches Err(Error::Client(ClientError::Validation(m))) && m@
                == "api_key cannot be empty"@
        } else {
            match client::normal_base(url) {
                Err(e) => outcome matches Err(Error::Client(ClientError::InvalidBaseUrl(m))) && m@
                    == e,
                Ok(normal) => {
                    &&& outcome matches Ok(made)
                    &&& made.base() == normal
                    &&& made.key() == api_key
                    &&& made.agent() == client::USER_AGENT@
                },
            }
        },
    }
}

/// The base URL that is asked for, or else that of the public instance.
pub open spec fn chosen_base(base_url: Option<Seq<char>>) -> Seq<char> {
    match base_url {
        Some(base) => base,
        None => client::DEFAULT_BASE_URL@,
    }
}

/// Makes the client of an account.
pub fn build_client(cli: &Cli, account: &AccountRecord) -> (outcome: Result<PlausibleClient, Error>)
    ensures
        client_made(outcome, account.api_key@, chosen_base(cli.base_url.deep_view())),
{
    let made = match &cli.base_url {
        Some(base) => PlausibleClient::with_base_text(account.api_key.clone(), base.as_str()),
        None => PlausibleClient::new(account.api_key.clone()),
    };
    match made {
        Ok(client) => Ok(client),
        Err(e) => Err(Error::Client(e)),
    }
}

/// What a command on an account works with.
#[derive(Debug)]
pub struct Session {
    pub alias: String,
    pub client: PlausibleClient,
    pub limits: RateLimitConfig,
}

impl Session {
    /// Whether an attempt to gather what a command on an account works with came out as it should.
    pub open spec fn opened(
        outcome: Result<Session, Error>,
        cli: Cli,
        state: StateView,
        alias: Seq<char>,
        key_file: Result<String, IoFailure>,
    ) -> bool {
        if !state.accounts.contains_key(alias) {
            outcome matches Err(Error::Accounts(AccountStoreError::AccountNotFound(a))) && a@
                == alias
        } else {
            match key_file {
                Err(failure) => outcome == Err::<Session, _>(
                    Error::Accounts(AccountStoreError::Io(failure)),
                ),
                Ok(contents) => {
                    &&& client_made(
                        match outcome {
                            Ok(session) => Ok(session.client),
                            Err(e) => Err(e),
                        },
                        text::trimmed(contents@),
                        chosen_base(cli.base_url.deep_view()),
                    )
                    &&& outcome matches Ok(session) ==> {
                        &&& session.alias@ == alias
                        &&& session.limits.hourly_quota@ == rate_limit::DEFAULT_HOURLY_QUOTA
                        &&& nonzero::plain(session.limits.daily_quota)
                            == state.accounts[alias].daily_budget
                        &&& session.limits.jitter_max == rate_limit::DEFAULT_JITTER_NANOS
                        &&& session.limits.quota.burst == rate_limit::DEFAULT_HOURLY_QUOTA
                        &&& session.limits.quota.interval_nanos == 6_000_000_000
                    }
                },
            }
        }
    }

    /// Gathers what a command on an account works with: the account has to exist and its key to be
    /// readable, and its client to be possible. Its requests are limited by the usual quota per hour
    /// and by its own budget per day.
    pub fn open(
        cli: &Cli,
        store: &AccountStore,
        alias: String,
        key_file: Result<String, IoFailure>,
    ) -> (outcome: Result<Session, Error>)
        requires
            store.wf(),
        ensures
            Session::opened(outcome, *cli, store@, alias@, key_file),
    {
        let account = match store.get_account(alias.as_str(), key_file) {
            Ok(account) => account,
            Err(e) => {
                return Err(Error::Accounts(e));
            },
        };
        match build_client(cli, &account) {
            Ok(client) => Ok(
                Session {
                    alias,
                    client,
                    limits: RateLimitConfig::default().with_daily_quota(account.daily_budget),
                },
            ),
            Err(e) => Err(e),
        }
    }
}

/// Whether a query asks for what an aggregate command says.
pub open spec fn aggregates(query: AggregateQuery, args: StatsAggregateArgs) -> bool {
    &&& query.site_id == args.site
    &&& query.metrics@ == args.metrics@
    &&& query.period == args.period
    &&& query.date == args.date
    &&& query.filters@ == args.filters@
    &&& query.properties@ == args.properties@
    &&& query.compare == args.compare
    &&& query.interval == args.interval
    &&& query.sort == args.sort
    &&& query.limit == args.limit
    &&& query.page == args.page
}

/// The query of an aggregate command.
pub fn build_aggregate_query(args: &StatsAggregateArgs) -> (query: AggregateQuery)
    ensures
        aggregates(query, *args),
{
    AggregateQuery {
        site_id: args.site.clone(),
        metrics: args.metrics.clone(),
        period: args.period.clone(),
        date: args.date.clone(),
        filters: args.filters.clone(),
        properties: args.properties.clone(),
        compare: args.compare.clone(),
        interval: args.interval.clone(),
        sort: args.sort.clone(),
        limit: args.limit,
        page: args.page,
    }
}

/// Whether a query asks for what a timeseries command says.
pub open spec fn spans(query: TimeseriesQuery, args: StatsTimeseriesArgs) -> bool {
    &&& query.site_id == args.site
    &&& query.metrics@ == args.metrics@
    &&& query.period == args.period
    &&& query.date == args.date
    &&& query.interval == args.interval
    &&& query.filters@ == args.filters@
    &&& query.properties@ == args.properties@
    &&& query.compare == args.compare
    &&& query.sort == args.sort
    &&& query.limit == args.limit
    &&& query.page == args.page
}

/// The query of a timeseries command.
pub fn build_timeseries_query(args: &StatsTimeseriesArgs) -> (query: TimeseriesQuery)
    ensures
        spans(query, *args),
{
    TimeseriesQuery {
        site_id: args.site.clone(),
        metrics: args.metrics.clone(),
        period: args.period.clone(),
        date: args.date.clone(),
        interval: args.interval.clone(),
        filters: args.filters.clone(),
        properties: args.properties.clone(),
        compare: args.compare.clone(),
        sort: args.sort.clone(),
        limit: args.limit,
        page: args.page,
    }
}

/// Whether a query asks for what a breakdown command says.
pub open spec fn breaks_down(query: BreakdownQuery, args: StatsBreakdownArgs) -> bool {
    &&& query.site_id == args.site
    &&& query.property == args.property
    &&& query.metrics@ == args.metrics@
    &&& query.period == args.period
    &&& query.date == args.date
    &&& query.filters@ == args.filters@
    &&& query.properties@ == args.properties@
    &&& query.compare == args.compare
    &&& query.sort == args.sort
    &&& query.limit == args.limit
    &&& query.page == args.page
    &&& query.included == args.included
}

/// The query of a breakdown command.
pub fn build_breakdown_query(args: &StatsBreakdownArgs) -> (query: BreakdownQuery)
    ensures
        breaks_down(query, *args),
{
    BreakdownQuery {
        site_id: args.site.clone(),
        property: args.property.clone(),
        metrics: args.metrics.clone(),
        period: args.period.clone(),
        date: args.date.clone(),
        filters: args.filters.clone(),
        properties: args.properties.clone(),
        compare: args.compare.clone(),
        sort: args.sort.clone(),
        limit: args.limit,
        page: args.page,
        included: args.included.clone(),
    }
}

/// The site that a command creates.
pub fn build_create_site_request(args: &SiteCreateArgs) -> (request: CreateSiteRequest)
    ensures
        request == (CreateSiteRequest {
            domain: args.domain,
            timezone: args.timezone,
            public: args.public,
        }),
{
    CreateSiteRequest {
        domain: args.domain.clone(),
        timezone: args.timezone.clone(),
        public: args.public,
    }
}

/// The site that a command updates, and how.
pub fn build_update_site_request(args: &SiteUpdateArgs) -> (request: (String, UpdateSiteRequest))
    ensures
        request.0 == args.site,
        request.1 == (UpdateSiteRequest {
            timezone: args.timezone,
            public: args.public,
            main_site: args.main_site,
        }),
{
    (
        args.site.clone(),
        UpdateSiteRequest {
            timezone: args.timezone.clone(),
            public: args.public,
            main_site: args.main_site,
        },
    )
}

/// The site whose statistics a command resets, and how far back.
pub fn build_reset_site_request(args: &SiteResetArgs) -> (request: (String, ResetSiteStatsRequest))
    ensures
        request.0 == args.site,
        request.1 == (ResetSiteStatsRequest { date: args.date }),
{
    (args.site.clone(), ResetSiteStatsRequest { date: args.date.clone() })
}

/// A command uses the account that is asked for, whatever the default is, and the default if none is
/// asked for; without either there is none to use.
pub proof fn law_account_that_is_asked_for_is_used(
    outcome: Result<String, Error>,
    state: StateView,
    asked: Option<Seq<char>>,
)
    requires
        resolves(outcome, state, asked),
    ensures
        asked is Some ==> (outcome matches Ok(a) && Some(a@) == asked),
        asked is None && state.default_account is Some ==> (outcome matches Ok(a) && Some(a@)
            == state.default_account),
        asked is None && state.default_account is None ==> outcome matches Err(
            Error::NoDefaultAccount,
        ),
{
}

/// A session on an account works with its own key, without the white space around it, on the
/// instance that is asked for, or else on the public one. It may make 600 requests per hour, one
/// every six seconds, and as many per day as the budget of the account says.
pub proof fn law_session_works_for_its_account(
    outcome: Result<Session, Error>,
    cli: Cli,
    state: StateView,
    alias: Seq<char>,
    key_file: Result<String, IoFailure>,
)
    requires
        Session::opened(outcome, cli, state, alias, key_file),
    ensures
        !state.accounts.contains_key(alias) ==> (outcome matches Err(
            Error::Accounts(AccountStoreError::AccountNotFound(a)),
        ) && a@ == alias),
        state.accounts.contains_key(alias) && key_file is Err ==> (outcome matches Err(
            Error::Accounts(AccountStoreError::Io(failure)),
        ) && failure == key_file->Err_0),
        outcome matches Ok(session) ==> {
            &&& state.accounts.contains_key(alias)
            &&& key_file matches Ok(contents)
            &&& !text::blank(contents@)
            &&& session.alias@ == alias
            &&& session.client.key() == text::trimmed(contents@)
            &&& client::url_parsed(
                match cli.base_url {
                    Some(base) => base@,
                    None => "https://plausible.io/"@,
                },
            ) matches Ok(url)
            &&& client::normal_base(url) == Ok::<Seq<char>, Seq<char>>(session.client.base())
            &&& session.limits.hourly_quota@ == 600
            &&& session.limits.quota.burst == 600
            &&& session.limits.quota.interval_nanos == 6_000_000_000
            &&& session.limits.jitter_max == 250_000_000
            &&& match session.limits.daily_quota {
                Some(n) => state.accounts[alias].daily_budget == Some(n@),
                None => state.accounts[alias].daily_budget is None,
            }
        },
{
    if let Ok(contents) = key_file {
        text::lemma_trimmed_empty(contents@);
    }
}

/// A client for an account is refused if its base URL is none, then if its key is blank, then if its
/// base URL has no normal form, each with the reason; otherwise there is one.
pub proof fn law_clients_are_refused_for_a_reason(
    outcome: Result<PlausibleClient, Error>,
    api_key: Seq<char>,
    base: Seq<char>,
)
    requires
        client_made(outcome, api_key, base),
    ensures
        client::url_parsed(base) matches Err(e) ==> (outcome matches Err(
            Error::Client(ClientError::InvalidBaseUrl(m)),
        ) && m@ == e),
        client::url_parsed(base) is Ok && text::blank(api_key) ==> (outcome matches Err(
            Error::Client(ClientError::Validation(m)),
        ) && m@ == "api_key cannot be empty"@),
        client::url_parsed(base) is Ok && !text::blank(api_key) ==> (outcome is Ok
            <==> client::normal_base(client::url_parsed(base)->Ok_0) is Ok),
{
    text::lemma_trimmed_empty(api_key);
}

} // verus!
