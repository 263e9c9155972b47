//! How a command runs: what it needs next, and what it makes of what it got.

use super::events;
use super::events::{
    event_source, import_source, load_event_payload, load_import_payload, PayloadSource,
};
use super::{
    build_aggregate_query, build_breakdown_query, build_create_site_request,
    build_reset_site_request, build_timeseries_query, build_update_site_request, Commands,
    EventImportArgs, EventSendArgs, EventsCommand, QueueCommand, SiteDeleteArgs, SitesCommand,
    StatsCommand,
};
use super::executor;
use crate::cli;
use crate::client::{ApiRequest, Method, PlausibleClient};
use crate::json;
use crate::json::{object_of, push_member, push_text, single, Datum};
use crate::nonzero::NonZeroU32;
use crate::output;
use crate::output::lists;
use crate::output::{
    print, render_aggregate, render_breakdown, render_event_template, render_realtime,
    render_site_summary, render_sites, render_timeseries, results, status, tell, Output,
    OutputFormat,
};
use crate::queue::{JobKind, JobRequest, JobResponse, JobResult, QueueSnapshot};
use crate::rate_limit::RateStatus;
use crate::text;
use crate::text::decimal_text;
use crate::Error;
use serde_json::Value;
use vstd::prelude::*;
use vstd::string::*;

verus! {

/// What a command needs next.
#[derive(Debug)]
pub enum Step {
    /// Nothing: it is done, and prints this.
    Done(Output),
    /// An answer to a question. The question is asked aside where the output is read by programs.
    Confirm { prompt: String, aside: bool },
    /// Events, from the given place.
    Load(PayloadSource),
    /// The result of a job of the given weight.
    Submit { request: JobRequest, weight: NonZeroU32 },
    /// The budget of the account.
    ShowStatus,
    /// The jobs in the queue.
    InspectQueue,
    /// The queue to be empty.
    AwaitIdle,
}

/// Whether a step submits a job of weight one for an account.
pub open spec fn submits(step: Step, alias: Seq<char>, kind: JobKind) -> bool {
    &&& step matches Step::Submit { request, weight }
    &&& request.account@ == alias
    &&& request.kind == kind
    &&& weight@ == 1
}

/// Whether a kind of job queries the statistics that a command asks for.
pub open spec fn queries(kind: JobKind, command: StatsCommand) -> bool {
    match command {
        StatsCommand::Aggregate(args) => kind matches JobKind::StatsAggregate { query }
            && cli::aggregates(*query, args),
        StatsCommand::Timeseries(args) => kind matches JobKind::StatsTimeseries { query }
            && cli::spans(*query, args),
        StatsCommand::Breakdown(args) => kind matches JobKind::StatsBreakdown { query }
            && cli::breaks_down(*query, args),
        StatsCommand::Realtime(args) => kind == (JobKind::StatsRealtime { site_id: args.site }),
    }
}

/// The job of a command on sites.
pub open spec fn site_job(command: SitesCommand) -> JobKind {
    match command {
        SitesCommand::List => JobKind::ListSites,
        SitesCommand::Create(args) => JobKind::SiteCreate {
            request: Box::new(
                crate::client::CreateSiteRequest {
                    domain: args.domain,
                    timezone: args.timezone,
                    public: args.public,
                },
            ),
        },
        SitesCommand::Update(args) => JobKind::SiteUpdate {
            site_id: args.site,
            request: Box::new(
                crate::client::UpdateSiteRequest {
                    timezone: args.timezone,
                    public: args.public,
                    main_site: args.main_site,
                },
            ),
        },
        SitesCommand::Reset(args) => JobKind::SiteReset {
            site_id: args.site,
            request: Box::new(crate::client::ResetSiteStatsRequest { date: args.date }),
        },
        SitesCommand::Delete(args) => JobKind::SiteDelete { site_id: args.site },
    }
}

/// The question whether a site is to be deleted.
pub open spec fn question(site: Seq<char>) -> Seq<char> {
    "Delete site '"@ + site + "'? Type 'yes' to confirm:"@
}

/// The first step of a command on sites: the deletion of a site is confirmed first, unless it is
/// forced.
pub open spec fn plans_sites(
    step: Step,
    command: SitesCommand,
    alias: Seq<char>,
    format: OutputFormat,
) -> bool {
    match command {
        SitesCommand::Delete(args) if !args.force => {
            &&& step matches Step::Confirm { prompt, aside }
            &&& prompt@ == question(args.site@)
            &&& aside == (format == OutputFormat::Json)
        },
        _ => submits(step, alias, site_job(command)),
    }
}

fn submission(alias: &str, kind: JobKind) -> (step: Step)
    ensures
        submits(step, alias@, kind),
{
    Step::Submit {
        request: JobRequest { account: alias.to_owned(), kind },
        weight: NonZeroU32::new(1).unwrap(),
    }
}

fn plan_sites(command: &SitesCommand, alias: &str, format: OutputFormat) -> (step: Step)
    ensures
        plans_sites(step, *command, alias@, format),
{
    match command {
        SitesCommand::List => submission(alias, JobKind::ListSites),
        SitesCommand::Create(args) => submission(
            alias,
            JobKind::SiteCreate { request: Box::new(build_create_site_request(args)) },
        ),
        SitesCommand::Update(args) => {
            let (site_id, request) = build_update_site_request(args);
            submission(alias, JobKind::SiteUpdate { site_id, request: Box::new(request) })
        },
        SitesCommand::Reset(args) => {
            let (site_id, request) = build_reset_site_request(args);
            submission(alias, JobKind::SiteReset { site_id, request: Box::new(request) })
        },
        SitesCommand::Delete(args) => {
            if args.force {
                submission(alias, JobKind::SiteDelete { site_id: args.site.clone() })
            } else {
                Step::Confirm {
                    prompt: "Delete site '".to_owned().concat(args.site.as_str()).concat(
                        "'? Type 'yes' to confirm:",
                    ),
                    aside: format == OutputFormat::Json,
                }
            }
        },
    }
}

/// Whether a step is the job of a command that fetches statistics.
pub open spec fn plans_stats(step: Step, command: StatsCommand, alias: Seq<char>) -> bool {
    step matches Step::Submit { request, .. } && submits(step, alias, request.kind) && queries(
        request.kind,
        command,
    )
}

fn plan_stats(command: &StatsCommand, alias: &str) -> (step: Step)
    ensures
        plans_stats(step, *command, alias@),
{
    let kind = match command {
        StatsCommand::Aggregate(args) => JobKind::StatsAggregate {
            query: Box::new(build_aggregate_query(args)),
        },
        StatsCommand::Timeseries(args) => JobKind::StatsTimeseries {
            query: Box::new(build_timeseries_query(args)),
        },
        StatsCommand::Breakdown(args) => JobKind::StatsBreakdown {
            query: Box::new(build_breakdown_query(args)),
        },
        StatsCommand::Realtime(args) => JobKind::StatsRealtime { site_id: args.site.clone() },
    };
    submission(alias, kind)
}

/// Whether an attempt to find out where the event of a command is read from came out as it should:
/// exactly one place has to be given.
pub open spec fn plans_send(outcome: Result<Step, Error>, args: EventSendArgs) -> bool {
    let given = events::count(args.data is Some, args.file is Some, args.stdin);
    if given == 0 {
        outcome matches Err(e) && events::invalid(
            e,
            "provide one of --data, --file, or --stdin for events send"@,
        )
    } else if given > 1 {
        outcome matches Err(e) && events::invalid(
            e,
            "choose only one of --data, --file, or --stdin for events send"@,
        )
    } else {
        &&& outcome matches Ok(Step::Load(source))
        &&& match args.data {
            Some(data) => source matches PayloadSource::Inline(d) && d@ == data@,
            None => match args.file {
                Some(path) => source == PayloadSource::File(path),
                None => source is Stdin,
            },
        }
    }
}

/// Whether an attempt to find out where the events of an import are read from came out as it
/// should: exactly one place has to be given.
pub open spec fn plans_import(outcome: Result<Step, Error>, args: EventImportArgs) -> bool {
    let given = events::count(args.file is Some, args.stdin, false);
    if given == 0 {
        outcome matches Err(e) && events::invalid(e, "provide --file or --stdin for events import"@)
    } else if given > 1 {
        outcome matches Err(e) && events::invalid(
            e,
            "choose either --file or --stdin for events import"@,
        )
    } else {
        &&& outcome matches Ok(Step::Load(source))
        &&& match args.file {
            Some(path) => source == PayloadSource::File(path),
            None => source is Stdin,
        }
    }
}

/// Whether an outcome shows the example of an event.
pub open spec fn plans_template(outcome: Result<Step, Error>, format: OutputFormat) -> bool {
    match json::pretty(status::sample_event()) {
        Err(e) => outcome matches Err(Error::Serialization(m)) && m@ == e,
        Ok(sample) => {
            &&& outcome matches Ok(Step::Done(printed))
            &&& printed.says(
                match format {
                    OutputFormat::Human => "Sample event payload:\n"@ + sample,
                    OutputFormat::Json => sample,
                },
            )
        },
    }
}

fn plan_events(command: &EventsCommand, format: OutputFormat) -> (outcome: Result<Step, Error>)
    ensures
        match *command {
            EventsCommand::Template => plans_template(outcome, format),
            EventsCommand::Send(args) => plans_send(outcome, args),
            EventsCommand::Import(args) => plans_import(outcome, args),
        },
{
    let source = match command {
        EventsCommand::Template => {
            return match render_event_template(format) {
                Ok(output) => Ok(Step::Done(output)),
                Err(e) => Err(e),
            };
        },
        EventsCommand::Send(args) => event_source(args),
        EventsCommand::Import(args) => import_source(args),
    };
    match source {
        Ok(source) => Ok(Step::Load(source)),
        Err(e) => Err(e),
    }
}

/// Whether an outcome is the first step of a command on an account.
pub open spec fn plans(
    outcome: Result<Step, Error>,
    command: Commands,
    alias: Seq<char>,
    format: OutputFormat,
) -> bool {
    match command {
        Commands::Status => outcome matches Ok(Step::ShowStatus),
        Commands::Sites { command } => outcome matches Ok(step) && plans_sites(
            step,
            command,
            alias,
            format,
        ),
        Commands::Stats { command } => outcome matches Ok(step) && plans_stats(
            step,
            command,
            alias,
        ),
        Commands::Events { command: EventsCommand::Template } => plans_template(outcome, format),
        Commands::Events { command: EventsCommand::Send(args) } => plans_send(outcome, args),
        Commands::Events { command: EventsCommand::Import(args) } => plans_import(outcome, args),
        Commands::Queue { command: QueueCommand::Inspect } => outcome matches Ok(
            Step::InspectQueue,
        ),
        Commands::Queue { command: QueueCommand::Drain } => outcome matches Ok(Step::AwaitIdle),
        Commands::Accounts { .. } => false,
    }
}

/// The first step of a command on an account.
pub fn plan(command: &Commands, alias: &str, format: OutputFormat) -> (outcome: Result<Step, Error>)
    requires
        command !is Accounts,
    ensures
        plans(outcome, *command, alias@, format),
{
    match command {
        Commands::Status => Ok(Step::ShowStatus),
        Commands::Sites { command } => Ok(plan_sites(command, alias, format)),
        Commands::Stats { command } => Ok(plan_stats(command, alias)),
        Commands::Events { command } => plan_events(command, format),
        Commands::Queue { command } => match command {
            QueueCommand::Inspect => Ok(Step::InspectQueue),
            QueueCommand::Drain => Ok(Step::AwaitIdle),
        },
        Commands::Accounts { .. } => vstd::pervasive::unreached(),
    }
}

/// Whether an answer, in lower case and without surrounding white space, means yes.
pub open spec fn affirmative(answer: Seq<char>) -> bool {
    answer == "yes"@ || answer == "y"@
}

/// Whether an answer, in lower case and without surrounding white space, means yes.
pub fn is_affirmative(answer: &str) -> (yes: bool)
    ensures
        yes == affirmative(answer@),
        yes <==> answer@ == "yes"@ || answer@ == "y"@,
{
    text::same(answer, "yes") || text::same(answer, "y")
}

/// Whether an answer means yes, whatever its case and the white space around it.
pub fn confirm_deletion(answer: &str) -> (yes: bool)
    ensures
        yes == affirmative(text::lowercase(text::trimmed(answer@))),
        yes <==> text::lowercase(text::trimmed(answer@)) == "yes"@ || text::lowercase(
            text::trimmed(answer@),
        ) == "y"@,
{
    let trimmed = text::trim(answer);
    is_affirmative(trimmed.as_str().to_lowercase().as_str())
}

/// What became of the deletion of a site, as a document.
pub open spec fn deletion_document(site: Seq<char>, deleted: bool) -> json::Json {
    json::object(seq![("site"@, json::Json::Text(site)), ("deleted"@, json::Json::Bool(deleted))])
}

fn deletion_value(site: &str, deleted: bool) -> (value: Value)
    ensures
        json::content(value) == deletion_document(site@, deleted),
{
    let mut list: Vec<(String, Value)> = Vec::new();
    push_text(&mut list, "site", site);
    push_member(&mut list, "deleted", single(Datum::Bool(deleted)));
    assert(json::member_contents(list@) =~= seq![
        ("site"@, json::Json::Text(site@)),
        ("deleted"@, json::Json::Bool(deleted)),
    ]);
    object_of(list)
}

/// Whether an outcome is what follows the question whether a site is to be deleted.
pub open spec fn proceeds(
    outcome: Result<Step, Error>,
    args: SiteDeleteArgs,
    alias: Seq<char>,
    format: OutputFormat,
    answer: Result<String, String>,
) -> bool {
    match answer {
        Err(failure) => outcome == Err::<Step, _>(Error::Runtime(failure)),
        Ok(answer) => if affirmative(text::lowercase(text::trimmed(answer@))) {
            outcome matches Ok(step) && submits(
                step,
                alias,
                JobKind::SiteDelete { site_id: args.site },
            )
        } else {
            match output::told(format, "Aborted."@, deletion_document(args.site@, false)) {
                Ok(text) => outcome matches Ok(Step::Done(printed)) && printed.says(text),
                Err(e) => outcome matches Err(Error::Serialization(m)) && m@ == e,
            }
        },
    }
}

/// The step that follows the question whether a site is to be deleted, given what came of reading
/// the answer.
pub fn confirmed(
    args: &SiteDeleteArgs,
    alias: &str,
    format: OutputFormat,
    answer: Result<String, String>,
) -> (outcome: Result<Step, Error>)
    ensures
        proceeds(outcome, *args, alias@, format, answer),
{
    match answer {
        Err(failure) => Err(Error::Runtime(failure)),
        Ok(answer) => {
            if confirm_deletion(answer.as_str()) {
                return Ok(submission(alias, JobKind::SiteDelete { site_id: args.site.clone() }));
            }
            let document = deletion_value(args.site.as_str(), false);
            match tell(format, "Aborted.".to_owned(), &document) {
                Ok(output) => Ok(Step::Done(output)),
                Err(e) => Err(e),
            }
        },
    }
}

/// What a dry run says, as a document.
pub open spec fn dry_run_document(count: nat) -> json::Json {
    json::object(
        seq![
            ("dry_run"@, json::Json::Bool(true)),
            ("count"@, json::Json::Number(text::decimal(count))),
        ],
    )
}

/// What a dry run says, in words.
pub open spec fn dry_run_sentence(count: nat) -> Seq<char> {
    "Dry run: would import "@ + text::decimal(count) + " events."@
}

/// Prints how many events an import would send.
pub fn render_dry_run(count: usize, format: OutputFormat) -> (outcome: Result<Output, Error>)
    ensures
        output::tells(
            outcome,
            format,
            dry_run_sentence(count as nat),
            dry_run_document(count as nat),
        ),
{
    let mut list: Vec<(String, Value)> = Vec::new();
    push_member(&mut list, "dry_run", single(Datum::Bool(true)));
    push_member(&mut list, "count", single(Datum::Number(count as u64)));
    assert(json::member_contents(list@) =~= seq![
        ("dry_run"@, json::Json::Bool(true)),
        ("count"@, json::Json::Number(text::decimal(count as nat))),
    ]);
    let sentence = "Dry run: would import ".to_owned().concat(
        decimal_text(count as u64).as_str(),
    ).concat(" events.");
    tell(format, sentence, &object_of(list))
}

/// A document that says that something is so.
pub open spec fn fact(name: Seq<char>) -> json::Json {
    json::object(seq![(name, json::Json::Bool(true))])
}

fn fact_value(name: &str) -> (value: Value)
    ensures
        json::content(value) == fact(name@),
{
    let mut list: Vec<(String, Value)> = Vec::new();
    push_member(&mut list, name, single(Datum::Bool(true)));
    assert(json::member_contents(list@) =~= seq![(name@, json::Json::Bool(true))]);
    object_of(list)
}

/// Prints that the queue was drained.
pub fn render_drained(format: OutputFormat) -> (outcome: Result<Output, Error>)
    ensures
        output::tells(outcome, format, "Queue drained."@, fact("drained"@)),
{
    tell(format, "Queue drained.".to_owned(), &fact_value("drained"))
}

/// How many events were processed, as a document.
pub open spec fn processed_document(processed: nat) -> json::Json {
    json::object(seq![("processed"@, json::Json::Number(text::decimal(processed)))])
}

fn processed_value(processed: usize) -> (value: Value)
    ensures
        json::content(value) == processed_document(processed as nat),
{
    let mut list: Vec<(String, Value)> = Vec::new();
    push_member(&mut list, "processed", single(Datum::Number(processed as u64)));
    assert(json::member_contents(list@) =~= seq![
        ("processed"@, json::Json::Number(text::decimal(processed as nat))),
    ]);
    object_of(list)
}

/// Whether an outcome sends the event that was read: a blank text holds none.
pub open spec fn sends_read(
    outcome: Result<Step, Error>,
    args: EventSendArgs,
    alias: Seq<char>,
    read: Result<String, String>,
) -> bool {
    match read {
        Err(failure) => outcome == Err::<Step, _>(Error::Runtime(failure)),
        Ok(raw) => if text::trimmed(raw@).len() == 0 {
            outcome matches Err(e) && events::invalid(e, "event payload is empty"@)
        } else {
            sends(outcome, alias, json::parsed(text::trimmed(raw@)), args.domain.deep_view())
        },
    }
}

/// The step that sends an event, given what came of reading it.
pub fn event_loaded(args: &EventSendArgs, alias: &str, read: Result<String, String>) -> (outcome:
    Result<Step, Error>)
    ensures
        sends_read(outcome, *args, alias@, read),
{
    match load_event_payload(args, read) {
        Ok(event) => Ok(submission(alias, JobKind::EventSend { event })),
        Err(e) => Err(e),
    }
}

/// Whether an outcome sends the event that a parsed text makes.
pub open spec fn sends(
    outcome: Result<Step, Error>,
    alias: Seq<char>,
    parsed: Result<json::Json, Seq<char>>,
    domain: Option<Seq<char>>,
) -> bool {
    match parsed {
        Err(e) => outcome matches Err(Error::Serialization(m)) && m@ == e,
        Ok(value) => match events::event_from(value, domain) {
            None => outcome matches Err(e) && events::invalid(
                e,
                "event payload must be a JSON object"@,
            ),
            Some(event) => {
                &&& outcome matches Ok(step)
                &&& step matches Step::Submit { request, .. }
                &&& request.kind matches JobKind::EventSend { event: sent }
                &&& submits(step, alias, request.kind)
                &&& json::content(sent) == event
            },
        },
    }
}

/// Whether an outcome is what an import of given events does: a dry run counts them, otherwise they
/// are submitted as one job, which weighs as much as there are events.
pub open spec fn imports(
    outcome: Result<Step, Error>,
    list: Seq<json::Json>,
    dry_run: bool,
    alias: Seq<char>,
    format: OutputFormat,
) -> bool {
    if dry_run {
        match output::told(format, dry_run_sentence(list.len()), dry_run_document(list.len())) {
            Ok(text) => outcome matches Ok(Step::Done(printed)) && printed.says(text),
            Err(e) => outcome matches Err(Error::Serialization(m)) && m@ == e,
        }
    } else if list.len() > u32::MAX {
        outcome matches Err(e) && events::invalid(e, "too many events for single import batch"@)
    } else {
        &&& outcome matches Ok(Step::Submit { request, weight })
        &&& request.account@ == alias
        &&& request.kind matches JobKind::EventsImport { events }
        &&& json::contents(events@) == list
        &&& weight@ == list.len()
    }
}

/// The step that imports events: a dry run counts them, otherwise they are submitted as one job.
pub fn import_events(
    list: Vec<Value>,
    dry_run: bool,
    alias: &str,
    format: OutputFormat,
) -> (outcome: Result<Step, Error>)
    requires
        list@.len() > 0,
    ensures
        imports(outcome, json::contents(list@), dry_run, alias@, format),
{
    let count: usize = list.len();
    if dry_run {
        return match render_dry_run(count, format) {
            Ok(output) => Ok(Step::Done(output)),
            Err(e) => Err(e),
        };
    }
    if count > u32::MAX as usize {
        return Err(Error::InvalidInput("too many events for single import batch".to_owned()));
    }
    Ok(
        Step::Submit {
            request: JobRequest {
                account: alias.to_owned(),
                kind: JobKind::EventsImport { events: list },
            },
            weight: NonZeroU32::new(count as u32).unwrap(),
        },
    )
}

/// Whether an outcome imports the events that were read. There has to be at least one.
pub open spec fn imports_read(
    outcome: Result<Step, Error>,
    args: EventImportArgs,
    alias: Seq<char>,
    format: OutputFormat,
    read: Result<String, String>,
) -> bool {
    match read {
        Err(failure) => outcome == Err::<Step, _>(Error::Runtime(failure)),
        Ok(raw) => match events::imported(text::lines(raw@), args.domain.deep_view()) {
            Err(fault) => outcome matches Err(e) && events::invalid(e, fault),
            Ok(list) => if list.len() == 0 {
                outcome matches Err(e) && events::invalid(e, "no events found in input"@)
            } else {
                imports(outcome, list, args.dry_run, alias, format)
            },
        },
    }
}

/// The step that imports events, given what came of reading them.
pub fn import_loaded(
    args: &EventImportArgs,
    alias: &str,
    format: OutputFormat,
    read: Result<String, String>,
) -> (outcome: Result<Step, Error>)
    ensures
        imports_read(outcome, *args, alias@, format, read),
{
    match load_import_payload(args, read) {
        Ok(list) => import_events(list, args.dry_run, alias, format),
        Err(e) => Err(e),
    }
}

/// What people are shown of the response to the job of a command on sites, if it is of the kind that
/// the command expects.
pub open spec fn answers_sites(
    given: Option<Result<Output, Error>>,
    command: SitesCommand,
    response: JobResponse,
) -> bool {
    let format = OutputFormat::Human;
    match (command, response) {
        (SitesCommand::List, JobResponse::Sites(sites)) => given matches Some(outcome)
            && output::yields(outcome, results::told_sites(sites@, format)),
        (SitesCommand::Create(_), JobResponse::SiteCreated(site)) => given matches Some(outcome)
            && output::yields(outcome, results::told_site(site, format)),
        (SitesCommand::Update(_), JobResponse::SiteUpdated(site)) => given matches Some(outcome)
            && output::yields(outcome, results::told_site(site, format)),
        (SitesCommand::Reset(_), JobResponse::SiteReset)
        | (SitesCommand::Reset(_), JobResponse::Acknowledged) => given matches Some(outcome)
            && outcome matches Ok(o) && o.says("Site statistics reset queued successfully."@),
        (SitesCommand::Delete(args), JobResponse::SiteDeleted)
        | (SitesCommand::Delete(args), JobResponse::Acknowledged) => given matches Some(outcome)
            && outcome matches Ok(o) && o.says("Site '"@ + args.site@ + "' deleted."@),
        _ => given is None,
    }
}

fn answer_sites(command: &SitesCommand, response: JobResponse) -> (given: Option<
    Result<Output, Error>,
>)
    ensures
        answers_sites(given, *command, response),
{
    let format = OutputFormat::Human;
    match (command, response) {
        (SitesCommand::List, JobResponse::Sites(sites)) => Some(render_sites(&sites, format)),
        (SitesCommand::Create(_), JobResponse::SiteCreated(site)) => Some(
            render_site_summary(&site, format),
        ),
        (SitesCommand::Update(_), JobResponse::SiteUpdated(site)) => Some(
            render_site_summary(&site, format),
        ),
        (SitesCommand::Reset(_), JobResponse::SiteReset) => Some(
            Ok(Output::Text("Site statistics reset queued successfully.".to_owned())),
        ),
        (SitesCommand::Reset(_), JobResponse::Acknowledged) => Some(
            Ok(Output::Text("Site statistics reset queued successfully.".to_owned())),
        ),
        (SitesCommand::Delete(args), JobResponse::SiteDeleted) => Some(Ok(deleted(args))),
        (SitesCommand::Delete(args), JobResponse::Acknowledged) => Some(Ok(deleted(args))),
        _ => None,
    }
}

fn deleted(args: &SiteDeleteArgs) -> (printed: Output)
    ensures
        printed.says("Site '"@ + args.site@ + "' deleted."@),
{
    Output::Text("Site '".to_owned().concat(args.site.as_str()).concat("' deleted."))
}

/// What people are shown of the response to the job of a command that fetches statistics, if it is
/// of the kind that the command expects.
pub open spec fn answers_stats(
    given: Option<Result<Output, Error>>,
    command: StatsCommand,
    response: JobResponse,
) -> bool {
    let format = OutputFormat::Human;
    match (command, response) {
        (StatsCommand::Aggregate(_), JobResponse::StatsAggregate(r)) => given matches Some(outcome)
            && output::yields(outcome, results::told_aggregate(r, format)),
        (StatsCommand::Timeseries(_), JobResponse::StatsTimeseries(r)) => given matches Some(
            outcome,
        ) && output::yields(outcome, results::told_timeseries(r, format)),
        (StatsCommand::Breakdown(_), JobResponse::StatsBreakdown(r)) => given matches Some(outcome)
            && output::yields(outcome, results::told_breakdown(r, format)),
        (StatsCommand::Realtime(_), JobResponse::StatsRealtime(r)) => given matches Some(outcome)
            && output::yields(outcome, results::told_realtime(r, format)),
        _ => given is None,
    }
}

fn answer_stats(command: &StatsCommand, response: JobResponse) -> (given: Option<
    Result<Output, Error>,
>)
    ensures
        answers_stats(given, *command, response),
{
    let format = OutputFormat::Human;
    match (command, response) {
        (StatsCommand::Aggregate(_), JobResponse::StatsAggregate(r)) => Some(
            render_aggregate(&r, format),
        ),
        (StatsCommand::Timeseries(_), JobResponse::StatsTimeseries(r)) => Some(
            render_timeseries(&r, format),
        ),
        (StatsCommand::Breakdown(_), JobResponse::StatsBreakdown(r)) => Some(
            render_breakdown(&r, format),
        ),
        (StatsCommand::Realtime(_), JobResponse::StatsRealtime(r)) => Some(
            render_realtime(&r, format),
        ),
        _ => None,
    }
}

/// What people are shown of the response to the job that sends an event.
pub open spec fn answers_send(outcome: Result<Output, Error>, response: JobResponse) -> bool {
    match response {
        JobResponse::EventAck | JobResponse::Acknowledged => outcome matches Ok(o) && o.says(
            "Event dispatched to Plausible."@,
        ),
        JobResponse::EventsProcessed { processed } => outcome matches Ok(o) && o.says(
            "Processed batch containing "@ + text::decimal(processed as nat) + " events."@,
        ),
        JobResponse::Custom(value) => output::prints(outcome, json::content(value)),
        other => {
            &&& outcome matches Ok(Output::Response { title, response: r })
            &&& title@ == "Event response"@
            &&& r == other
        },
    }
}

fn answer_send(response: JobResponse) -> (outcome: Result<Output, Error>)
    ensures
        answers_send(outcome, response),
{
    match response {
        JobResponse::EventAck => Ok(Output::Text("Event dispatched to Plausible.".to_owned())),
        JobResponse::Acknowledged => Ok(Output::Text("Event dispatched to Plausible.".to_owned())),
        JobResponse::EventsProcessed { processed } => Ok(
            Output::Text(
                "Processed batch containing ".to_owned().concat(
                    decimal_text(processed as u64).as_str(),
                ).concat(" events."),
            ),
        ),
        JobResponse::Custom(value) => print(&value),
        other => Ok(Output::Response { title: "Event response".to_owned(), response: other }),
    }
}

/// What people are shown of the response to the job of an import.
pub open spec fn answers_import(outcome: Result<Output, Error>, response: JobResponse) -> bool {
    match response {
        JobResponse::EventsProcessed { processed } => outcome matches Ok(o) && o.says(
            "Imported "@ + text::decimal(processed as nat) + " events."@,
        ),
        JobResponse::EventAck | JobResponse::Acknowledged => outcome matches Ok(o) && o.says(
            "Import completed."@,
        ),
        JobResponse::Custom(value) => output::prints(outcome, json::content(value)),
        other => {
            &&& outcome matches Ok(Output::Response { title, response: r })
            &&& title@ == "Import response"@
            &&& r == other
        },
    }
}

fn answer_import(response: JobResponse) -> (outcome: Result<Output, Error>)
    ensures
        answers_import(outcome, response),
{
    match response {
        JobResponse::EventsProcessed { processed } => Ok(
            Output::Text(
                "Imported ".to_owned().concat(decimal_text(processed as u64).as_str()).concat(
                    " events.",
                ),
            ),
        ),
        JobResponse::EventAck => Ok(Output::Text("Import completed.".to_owned())),
        JobResponse::Acknowledged => Ok(Output::Text("Import completed.".to_owned())),
        JobResponse::Custom(value) => print(&value),
        other => Ok(Output::Response { title: "Import response".to_owned(), response: other }),
    }
}

/// What programs are shown of a response, whatever the command was: what it holds, or what it says
/// was done.
pub open spec fn shows_response(outcome: Result<Output, Error>, response: JobResponse) -> bool {
    let format = OutputFormat::Json;
    match response {
        JobResponse::Sites(sites) => output::yields(outcome, results::told_sites(sites@, format)),
        JobResponse::StatsAggregate(r) => output::yields(
            outcome,
            results::told_aggregate(r, format),
        ),
        JobResponse::StatsTimeseries(r) => output::yields(
            outcome,
            results::told_timeseries(r, format),
        ),
        JobResponse::StatsBreakdown(r) => output::yields(
            outcome,
            results::told_breakdown(r, format),
        ),
        JobResponse::StatsRealtime(r) => output::yields(outcome, results::told_realtime(r, format)),
        JobResponse::SiteCreated(site) | JobResponse::SiteUpdated(site) => output::yields(
            outcome,
            results::told_site(site, format),
        ),
        JobResponse::SiteReset => output::prints(outcome, fact("reset"@)),
        JobResponse::SiteDeleted => output::prints(outcome, fact("deleted"@)),
        JobResponse::EventAck | JobResponse::Acknowledged => output::prints(
            outcome,
            fact("acknowledged"@),
        ),
        JobResponse::EventsProcessed { processed } => output::prints(
            outcome,
            processed_document(processed as nat),
        ),
        JobResponse::Custom(value) => output::prints(outcome, json::content(value)),
    }
}

fn show_response(response: JobResponse) -> (outcome: Result<Output, Error>)
    ensures
        shows_response(outcome, response),
{
    let format = OutputFormat::Json;
    match response {
        JobResponse::Sites(sites) => render_sites(&sites, format),
        JobResponse::StatsAggregate(r) => render_aggregate(&r, format),
        JobResponse::StatsTimeseries(r) => render_timeseries(&r, format),
        JobResponse::StatsBreakdown(r) => render_breakdown(&r, format),
        JobResponse::StatsRealtime(r) => render_realtime(&r, format),
        JobResponse::SiteCreated(site) => render_site_summary(&site, format),
        JobResponse::SiteUpdated(site) => render_site_summary(&site, format),
        JobResponse::SiteReset => print(&fact_value("reset")),
        JobResponse::SiteDeleted => print(&fact_value("deleted")),
        JobResponse::EventAck => print(&fact_value("acknowledged")),
        JobResponse::Acknowledged => print(&fact_value("acknowledged")),
        JobResponse::EventsProcessed { processed } => print(&processed_value(processed)),
        JobResponse::Custom(value) => print(&value),
    }
}

/// What became of the reset of a site, as a document.
pub open spec fn reset_document(site: Seq<char>) -> json::Json {
    json::object(seq![("site"@, json::Json::Text(site)), ("reset"@, json::Json::Bool(true))])
}

fn reset_value(site: &str) -> (value: Value)
    ensures
        json::content(value) == reset_document(site@),
{
    let mut list: Vec<(String, Value)> = Vec::new();
    push_text(&mut list, "site", site);
    push_member(&mut list, "reset", single(Datum::Bool(true)));
    assert(json::member_contents(list@) =~= seq![
        ("site"@, json::Json::Text(site@)),
        ("reset"@, json::Json::Bool(true)),
    ]);
    object_of(list)
}

/// What programs are shown of the response to the job of a command: a reset or deletion names its
/// site, an event that was acknowledged was sent, and any other response is shown as it is.
pub open spec fn answers_program(
    outcome: Result<Output, Error>,
    command: Commands,
    response: JobResponse,
) -> bool {
    match (command, response) {
        (Commands::Sites { command: SitesCommand::Reset(args) }, JobResponse::SiteReset)
        | (Commands::Sites { command: SitesCommand::Reset(args) }, JobResponse::Acknowledged) =>
            output::prints(outcome, reset_document(args.site@)),
        (Commands::Sites { command: SitesCommand::Delete(args) }, JobResponse::SiteDeleted)
        | (Commands::Sites { command: SitesCommand::Delete(args) }, JobResponse::Acknowledged) =>
            output::prints(outcome, deletion_document(args.site@, true)),
        (Commands::Events { command: EventsCommand::Send(_) }, JobResponse::EventAck)
        | (Commands::Events { command: EventsCommand::Send(_) }, JobResponse::Acknowledged) =>
            output::prints(outcome, fact("sent"@)),
        (_, other) => shows_response(outcome, other),
    }
}

fn answer_program(command: &Commands, response: JobResponse) -> (outcome: Result<Output, Error>)
    ensures
        answers_program(outcome, *command, response),
{
    let confirms = match &response {
        JobResponse::Acknowledged => true,
        JobResponse::SiteReset => match command {
            Commands::Sites { command: SitesCommand::Reset(_) } => true,
            _ => false,
        },
        JobResponse::SiteDeleted => match command {
            Commands::Sites { command: SitesCommand::Delete(_) } => true,
            _ => false,
        },
        JobResponse::EventAck => match command {
            Commands::Events { command: EventsCommand::Send(_) } => true,
            _ => false,
        },
        _ => false,
    };
    if !confirms {
        return show_response(response);
    }
    match command {
        Commands::Sites { command: SitesCommand::Reset(args) } => print(
            &reset_value(args.site.as_str()),
        ),
        Commands::Sites { command: SitesCommand::Delete(args) } => print(
            &deletion_value(args.site.as_str(), true),
        ),
        Commands::Events { command: EventsCommand::Send(_) } => print(&fact_value("sent")),
        _ => show_response(response),
    }
}

/// What is printed, or why nothing can be, if anything is to be printed at all.
pub open spec fn given(outcome: Result<Option<Output>, Error>) -> Option<Result<Output, Error>> {
    match outcome {
        Ok(Some(output)) => Some(Ok(output)),
        Ok(None) => None,
        Err(e) => Some(Err(e)),
    }
}

/// Whether an outcome is what a command prints once its job is done. To people a response of
/// another kind than the command expects is passed over, except that the commands on events show
/// it; programs are shown every response.
pub open spec fn responds(
    outcome: Result<Option<Output>, Error>,
    command: Commands,
    format: OutputFormat,
    result: JobResult,
) -> bool {
    match result {
        Err(e) => outcome == Err::<Option<Output>, _>(Error::Worker(e)),
        Ok(response) => match format {
            OutputFormat::Json => given(outcome) matches Some(inner) && answers_program(
                inner,
                command,
                response,
            ),
            OutputFormat::Human => match command {
                Commands::Sites { command } => answers_sites(given(outcome), command, response),
                Commands::Stats { command } => answers_stats(given(outcome), command, response),
                Commands::Events { command: EventsCommand::Send(_) } => given(
                    outcome,
                ) matches Some(inner) && answers_send(inner, response),
                Commands::Events { command: EventsCommand::Import(_) } => given(
                    outcome,
                ) matches Some(inner) && answers_import(inner, response),
                _ => outcome matches Ok(None),
            },
        },
    }
}

/// What a command prints once its job is done.
pub fn respond(command: &Commands, format: OutputFormat, result: JobResult) -> (outcome: Result<
    Option<Output>,
    Error,
>)
    ensures
        responds(outcome, *command, format, result),
{
    let response = match result {
        Ok(response) => response,
        Err(e) => {
            return Err(Error::Worker(e));
        },
    };
    let inner = if format == OutputFormat::Json {
        Some(answer_program(command, response))
    } else {
        match command {
            Commands::Sites { command } => answer_sites(command, response),
            Commands::Stats { command } => answer_stats(command, response),
            Commands::Events { command: EventsCommand::Send(_) } => Some(answer_send(response)),
            Commands::Events { command: EventsCommand::Import(_) } => Some(answer_import(response)),
            _ => None,
        }
    };
    match inner {
        Some(Ok(output)) => Ok(Some(output)),
        Some(Err(e)) => Err(e),
        None => Ok(None),
    }
}

/// No site is deleted without consent: a deletion is submitted at once only if it is forced.
pub proof fn law_deletion_needs_consent(
    step: Step,
    args: SiteDeleteArgs,
    alias: Seq<char>,
    format: OutputFormat,
)
    requires
        plans_sites(step, SitesCommand::Delete(args), alias, format),
    ensures
        step is Submit <==> args.force,
        step is Confirm <==> !args.force,
{
}

/// A dry run submits nothing, and tells the number of events that the import would submit as its
/// weight.
pub proof fn law_dry_run_submits_nothing(
    dry: Result<Step, Error>,
    earnest: Result<Step, Error>,
    list: Seq<json::Json>,
    alias: Seq<char>,
    format: OutputFormat,
)
    requires
        imports(dry, list, true, alias, format),
        imports(earnest, list, false, alias, format),
    ensures
        dry matches Ok(step) ==> step is Done,
        dry matches Ok(Step::Done(output)) ==> earnest matches Ok(
            Step::Submit { weight, .. },
        ) ==> Ok::<Seq<char>, Seq<char>>(output->Text_0@) == output::told(
            format,
            dry_run_sentence(weight@ as nat),
            dry_run_document(weight@ as nat),
        ),
        format == OutputFormat::Human ==> dry is Ok,
{
}

/// An import weighs as many requests as it has events, and it holds the events that were loaded.
pub proof fn law_import_weighs_what_it_sends(
    outcome: Result<Step, Error>,
    list: Seq<json::Json>,
    alias: Seq<char>,
    format: OutputFormat,
)
    requires
        imports(outcome, list, false, alias, format),
    ensures
        outcome matches Ok(step) ==> {
            &&& step matches Step::Submit { request, weight }
            &&& request.kind matches JobKind::EventsImport { events }
            &&& weight@ == events@.len()
            &&& json::contents(events@) == list
        },
        outcome is Err <==> list.len() > u32::MAX,
{
}

/// Where programs read the output, the first step of a command prints one JSON document if it prints
/// anything, and asks its question aside.
pub proof fn law_json_plans_print_json(
    outcome: Result<Step, Error>,
    command: Commands,
    alias: Seq<char>,
)
    requires
        plans(outcome, command, alias, OutputFormat::Json),
    ensures
        outcome matches Ok(Step::Done(output)) ==> output.is_json(),
        outcome matches Ok(Step::Confirm { aside, .. }) ==> aside,
{
}

/// Where programs read the output, a deletion that is called off prints one JSON document.
pub proof fn law_json_refusals_print_json(
    outcome: Result<Step, Error>,
    args: SiteDeleteArgs,
    alias: Seq<char>,
    answer: Result<String, String>,
)
    requires
        proceeds(outcome, args, alias, OutputFormat::Json, answer),
    ensures
        outcome matches Ok(Step::Done(output)) ==> output.is_json(),
{
}

/// Where programs read the output, a dry run prints one JSON document.
pub proof fn law_json_dry_runs_print_json(
    outcome: Result<Step, Error>,
    list: Seq<json::Json>,
    alias: Seq<char>,
)
    requires
        imports(outcome, list, true, alias, OutputFormat::Json),
    ensures
        outcome matches Ok(step) ==> step matches Step::Done(output) && output.is_json(),
{
}

/// Where programs read the output, the budget, the jobs in the queue and the end of a drained queue
/// are each printed as one JSON document.
pub proof fn law_json_views_print_json(
    outcome: Result<Output, Error>,
    budget: RateStatus,
    jobs: Seq<QueueSnapshot>,
)
    requires
        ({
            let format = OutputFormat::Json;
            let words = status::status_lines(budget);
            ||| output::tells(outcome, format, words, status::status_document(budget))
            ||| output::tells(outcome, format, lists::jobs_text(jobs), lists::jobs_document(jobs))
            ||| output::tells(outcome, format, "Queue drained."@, fact("drained"@))
        }),
    ensures
        outcome matches Ok(output) ==> output.is_json(),
{
}

/// Where programs read the output, every response to the job of a command is printed, as one JSON
/// document.
pub proof fn law_json_responses_print_json(
    outcome: Result<Option<Output>, Error>,
    command: Commands,
    result: JobResult,
)
    requires
        responds(outcome, command, OutputFormat::Json, result),
    ensures
        outcome matches Ok(printed) ==> printed matches Some(output) && output.is_json(),
{
    if let Ok(response) = result {
        let inner = given(outcome)->Some_0;
        assert(answers_program(inner, command, response));
        if let Ok(output) = inner {
            assert(output.is_json());
        }
    }
}

/// Only the answers `yes` and `y` delete a site, whatever their case and the white space around
/// them: then one job is submitted, which deletes that site for that account. Any other answer
/// submits nothing; people are told that the deletion was called off, and programs that the site was
/// not deleted.
pub proof fn law_only_yes_deletes_a_site(
    outcome: Result<Step, Error>,
    args: SiteDeleteArgs,
    alias: Seq<char>,
    format: OutputFormat,
    answer: String,
)
    requires
        proceeds(outcome, args, alias, format, Ok(answer)),
    ensures
        outcome matches Ok(Step::Submit { request, weight }) ==> {
            &&& text::lowercase(text::trimmed(answer@)) == "yes"@ || text::lowercase(
                text::trimmed(answer@),
            ) == "y"@
            &&& request.account@ == alias
            &&& request.kind matches JobKind::SiteDelete { site_id }
            &&& site_id == args.site
            &&& weight@ == 1
        },
        text::lowercase(text::trimmed(answer@)) == "yes"@ || text::lowercase(text::trimmed(answer@))
            == "y"@ ==> (outcome matches Ok(step) && step is Submit),
        text::lowercase(text::trimmed(answer@)) != "yes"@ && text::lowercase(text::trimmed(answer@))
            != "y"@ ==> {
            &&& outcome matches Ok(step) ==> step is Done
            &&& format == OutputFormat::Human ==> (outcome matches Ok(Step::Done(printed))
                && printed.says("Aborted."@))
            &&& format == OutputFormat::Json ==> (outcome matches Ok(Step::Done(printed)) ==> {
                &&& printed matches Output::Text(t)
                &&& json::pretty(deletion_document(args.site@, false)) == Ok::<Seq<char>, Seq<char>>(
                    t@,
                )
                &&& json::has(
                    deletion_document(args.site@, false),
                    "site"@,
                    json::Json::Text(args.site@),
                )
                &&& json::has(
                    deletion_document(args.site@, false),
                    "deleted"@,
                    json::Json::Bool(false),
                )
            })
        },
{
    law_documents_name_the_site(args.site@, false);
}

/// An answer that cannot be read deletes nothing.
pub proof fn law_unread_answer_deletes_nothing(
    outcome: Result<Step, Error>,
    args: SiteDeleteArgs,
    alias: Seq<char>,
    format: OutputFormat,
    failure: String,
)
    requires
        proceeds(outcome, args, alias, format, Err(failure)),
    ensures
        outcome matches Err(Error::Runtime(m)) && m == failure,
{
}

/// What programs are told of a deletion or a reset names the site and what was done to it.
pub proof fn law_documents_name_the_site(site: Seq<char>, deleted: bool)
    ensures
        json::has(deletion_document(site, deleted), "site"@, json::Json::Text(site)),
        json::has(deletion_document(site, deleted), "deleted"@, json::Json::Bool(deleted)),
        json::has(reset_document(site), "site"@, json::Json::Text(site)),
        json::has(reset_document(site), "reset"@, json::Json::Bool(true)),
{
    reveal_strlit("site");
    reveal_strlit("deleted");
    reveal_strlit("reset");
    assert("site"@.len() == 4 && "deleted"@.len() == 7 && "reset"@.len() == 5);
    let deletion = seq![("site"@, json::Json::Text(site)), ("deleted"@, json::Json::Bool(deleted))];
    assert(deletion[0].0 == "site"@ && deletion[1].0 == "deleted"@);
    json::law_object_has_its_members(deletion);
    let reset = seq![("site"@, json::Json::Text(site)), ("reset"@, json::Json::Bool(true))];
    assert(reset[0].0 == "site"@ && reset[1].0 == "reset"@);
    json::law_object_has_its_members(reset);
}

/// What programs are told of a number of events holds that number, and of something that was done
/// that it was.
pub proof fn law_documents_tell_the_number(count: nat, name: Seq<char>)
    ensures
        json::has(dry_run_document(count), "dry_run"@, json::Json::Bool(true)),
        json::has(dry_run_document(count), "count"@, json::Json::Number(text::decimal(count))),
        json::has(
            processed_document(count),
            "processed"@,
            json::Json::Number(text::decimal(count)),
        ),
        json::has(fact(name), name, json::Json::Bool(true)),
{
    reveal_strlit("dry_run");
    reveal_strlit("count");
    assert("dry_run"@.len() == 7 && "count"@.len() == 5);
    let dry = seq![
        ("dry_run"@, json::Json::Bool(true)),
        ("count"@, json::Json::Number(text::decimal(count))),
    ];
    assert(dry[0].0 == "dry_run"@ && dry[1].0 == "count"@);
    json::law_object_has_its_members(dry);
    let processed = seq![("processed"@, json::Json::Number(text::decimal(count)))];
    assert(processed[0].0 == "processed"@);
    json::law_object_has_its_members(processed);
    let said = seq![(name, json::Json::Bool(true))];
    assert(said[0].0 == name);
    json::law_object_has_its_members(said);
}

/// A command on sites submits one job for the account, which is about the site and the settings that
/// the command names. Only a deletion that is not forced is confirmed first, by a question that
/// names the site.
pub proof fn law_site_commands_submit_what_they_name(
    step: Step,
    command: SitesCommand,
    alias: Seq<char>,
    format: OutputFormat,
)
    requires
        plans_sites(step, command, alias, format),
    ensures
        step matches Step::Submit { request, weight } ==> request.account@ == alias && weight@ == 1,
        command is List ==> (step matches Step::Submit { request, .. } && request.kind is ListSites),
        command matches SitesCommand::Create(args) ==> {
            &&& step matches Step::Submit { request, .. }
            &&& request.kind matches JobKind::SiteCreate { request: site }
            &&& site.domain == args.domain
            &&& site.timezone == args.timezone
            &&& site.public == args.public
        },
        command matches SitesCommand::Update(args) ==> {
            &&& step matches Step::Submit { request, .. }
            &&& request.kind matches JobKind::SiteUpdate { site_id, request: changes }
            &&& site_id == args.site
            &&& changes.timezone == args.timezone
            &&& changes.public == args.public
            &&& changes.main_site == args.main_site
        },
        command matches SitesCommand::Reset(args) ==> {
            &&& step matches Step::Submit { request, .. }
            &&& request.kind matches JobKind::SiteReset { site_id, request: reset }
            &&& site_id == args.site
            &&& reset.date == args.date
        },
        command matches SitesCommand::Delete(args) ==> {
            &&& args.force ==> {
                &&& step matches Step::Submit { request, .. }
                &&& request.kind matches JobKind::SiteDelete { site_id }
                &&& site_id == args.site
            }
            &&& !args.force ==> {
                &&& step matches Step::Confirm { prompt, aside }
                &&& prompt@ == "Delete site '"@ + args.site@ + "'? Type 'yes' to confirm:"@
                &&& aside <==> format == OutputFormat::Json
            }
        },
{
}

/// A command that asks for statistics submits one job for the account, whose request carries exactly
/// the arguments of the command that are given.
pub proof fn law_stats_commands_ask_for_what_they_name(
    step: Step,
    command: StatsCommand,
    alias: Seq<char>,
    client: PlausibleClient,
    sent: ApiRequest,
)
    requires
        plans_stats(step, command, alias),
        step matches Step::Submit { request, .. } && executor::calls(
            client,
            request.kind,
            0,
            Ok(sent),
        ),
    ensures
        step matches Step::Submit { request, weight } && request.account@ == alias && weight@ == 1,
        sent.bearer@ == client.key(),
        sent.body is None,
        command matches StatsCommand::Aggregate(args) ==> {
            &&& executor::addressed(client, sent, Method::Get, "api/v1/stats/aggregate"@)
            &&& executor::asks_for(
                sent,
                args.site@,
                args.metrics@,
                args.period.deep_view(),
                args.date.deep_view(),
                args.filters@,
                args.properties@,
                args.compare.deep_view(),
                args.sort.deep_view(),
                args.limit,
                args.page,
            )
            &&& executor::carries(sent, "interval"@, args.interval.deep_view())
        },
        command matches StatsCommand::Timeseries(args) ==> {
            &&& executor::addressed(client, sent, Method::Get, "api/v1/stats/timeseries"@)
            &&& executor::asks_for(
                sent,
                args.site@,
                args.metrics@,
                args.period.deep_view(),
                args.date.deep_view(),
                args.filters@,
                args.properties@,
                args.compare.deep_view(),
                args.sort.deep_view(),
                args.limit,
                args.page,
            )
            &&& executor::carries(sent, "interval"@, args.interval.deep_view())
        },
        command matches StatsCommand::Breakdown(args) ==> {
            &&& executor::addressed(client, sent, Method::Get, "api/v1/stats/breakdown"@)
            &&& executor::asks_for(
                sent,
                args.site@,
                args.metrics@,
                args.period.deep_view(),
                args.date.deep_view(),
                args.filters@,
                args.properties@,
                args.compare.deep_view(),
                args.sort.deep_view(),
                args.limit,
                args.page,
            )
            &&& executor::carries(sent, "property"@, Some(args.property@))
            &&& executor::carries(sent, "include"@, args.included.deep_view())
        },
        command matches StatsCommand::Realtime(args) ==> {
            &&& executor::addressed(client, sent, Method::Get, "api/v1/stats/realtime/visitors"@)
            &&& sent.query@.len() == 1
            &&& sent.query@[0].0@ == "site_id"@
            &&& sent.query@[0].1@ == args.site@
        },
{
    let kind = step->Submit_request.kind;
    executor::law_queries_ask_for_what_is_given(client, kind, 0, sent);
    executor::law_jobs_ask_for_what_they_are_about(client, kind, 0, sent);
}

/// The event of a command is read from the one place that is given: the command line, a file or the
/// standard input. No place, or more than one, is refused.
pub proof fn law_event_comes_from_the_one_place_given(
    outcome: Result<Step, Error>,
    args: EventSendArgs,
)
    requires
        plans_send(outcome, args),
    ensures
        args.data is None && args.file is None && !args.stdin ==> (outcome matches Err(
            Error::InvalidInput(m),
        ) && m@ == "provide one of --data, --file, or --stdin for events send"@),
        args.data is Some && args.file is Some || args.data is Some && args.stdin || args.file is Some
            && args.stdin ==> (outcome matches Err(Error::InvalidInput(m)) && m@
            == "choose only one of --data, --file, or --stdin for events send"@),
        args.data is Some && args.file is None && !args.stdin ==> (outcome matches Ok(
            Step::Load(PayloadSource::Inline(d)),
        ) && d@ == args.data->Some_0@),
        args.data is None && args.file is Some && !args.stdin ==> (outcome matches Ok(
            Step::Load(PayloadSource::File(path)),
        ) && path == args.file->Some_0),
        args.data is None && args.file is None && args.stdin ==> (outcome matches Ok(
            Step::Load(source),
        ) && source is Stdin),
{
}

/// The events of an import are read from the one place that is given: a file or the standard input.
/// Neither, or both, is refused.
pub proof fn law_import_comes_from_the_one_place_given(
    outcome: Result<Step, Error>,
    args: EventImportArgs,
)
    requires
        plans_import(outcome, args),
    ensures
        args.file is None && !args.stdin ==> (outcome matches Err(Error::InvalidInput(m)) && m@
            == "provide --file or --stdin for events import"@),
        args.file is Some && args.stdin ==> (outcome matches Err(Error::InvalidInput(m)) && m@
            == "choose either --file or --stdin for events import"@),
        args.file is Some && !args.stdin ==> (outcome matches Ok(
            Step::Load(PayloadSource::File(path)),
        ) && path == args.file->Some_0),
        args.file is None && args.stdin ==> (outcome matches Ok(Step::Load(source))
            && source is Stdin),
{
}

/// An event is sent as the object that was parsed, but for the domain that was asked for, as one job
/// of weight one for the account. Anything else that was parsed, and what could not be parsed, is
/// not sent.
pub proof fn law_event_is_sent_as_parsed(
    outcome: Result<Step, Error>,
    alias: Seq<char>,
    parsed: Result<json::Json, Seq<char>>,
    domain: Option<Seq<char>>,
)
    requires
        sends(outcome, alias, parsed, domain),
    ensures
        outcome is Ok <==> parsed matches Ok(json::Json::Object(_)),
        outcome matches Ok(step) ==> {
            &&& step matches Step::Submit { request, weight }
            &&& request.account@ == alias
            &&& weight@ == 1
            &&& request.kind matches JobKind::EventSend { event }
            &&& parsed matches Ok(value)
            &&& events::is_value_but_for_domain(json::content(event), value, domain)
        },
        parsed matches Err(e) ==> (outcome matches Err(Error::Serialization(m)) && m@ == e),
        parsed matches Ok(value) && value !is Object ==> (outcome matches Err(
            Error::InvalidInput(m),
        ) && m@ == "event payload must be a JSON object"@),
{
}

/// An import submits the events of its lines, in their order: each line that is not blank is one
/// event, with as many before it as lines that are not blank, and is the object that the line
/// denotes, but for the domain that was asked for.
pub proof fn law_import_submits_its_lines(
    outcome: Result<Step, Error>,
    lines: Seq<Seq<char>>,
    domain: Option<Seq<char>>,
    alias: Seq<char>,
    format: OutputFormat,
    i: int,
)
    requires
        events::imported(lines, domain) matches Ok(list) && imports(
            outcome,
            list,
            false,
            alias,
            format,
        ),
        0 <= i < lines.len(),
        !text::blank(lines[i]),
    ensures
        outcome matches Ok(step) ==> {
            &&& step matches Step::Submit { request, weight }
            &&& request.account@ == alias
            &&& request.kind matches JobKind::EventsImport { events }
            &&& events@.len() == events::filled(lines)
            &&& weight@ == events::filled(lines)
            &&& events::filled(lines.take(i)) < events@.len()
            &&& json::parsed(text::trimmed(lines[i])) matches Ok(value)
            &&& events::is_value_but_for_domain(
                json::content(events@[events::filled(lines.take(i)) as int]),
                value,
                domain,
            )
        },
        outcome matches Err(e) ==> (e matches Error::InvalidInput(m) && m@
            == "too many events for single import batch"@),
{
    events::law_import_holds_one_event_per_line(lines, domain);
    events::law_each_line_is_its_own_event(lines, domain, i);
    if let Ok(Step::Submit { request, weight }) = outcome {
        if let JobKind::EventsImport { events } = request.kind {
            let k = events::filled(lines.take(i)) as int;
            assert(json::contents(events@)[k] == json::content(events@[k]));
        }
    }
}

/// A dry run tells how many events there are, and that they were not sent.
pub proof fn law_dry_run_tells_the_number(
    outcome: Result<Step, Error>,
    list: Seq<json::Json>,
    alias: Seq<char>,
    format: OutputFormat,
)
    requires
        imports(outcome, list, true, alias, format),
    ensures
        format == OutputFormat::Human ==> (outcome matches Ok(Step::Done(printed)) && printed.says(
            "Dry run: would import "@ + text::decimal(list.len()) + " events."@,
        )),
        format == OutputFormat::Json ==> (outcome matches Ok(step) ==> (step matches Step::Done(
            Output::Text(t),
        ) && exists|document: json::Json|
            {
                &&& #[trigger] json::pretty(document) == Ok::<Seq<char>, Seq<char>>(t@)
                &&& json::has(document, "dry_run"@, json::Json::Bool(true))
                &&& json::has(
                    document,
                    "count"@,
                    json::Json::Number(text::decimal(list.len())),
                )
            })),
{
    law_documents_tell_the_number(list.len(), "count"@);
    let document = dry_run_document(list.len());
    assert(json::has(document, "dry_run"@, json::Json::Bool(true)));
}

/// People are told in words what a command did: which site was deleted, that statistics are reset,
/// that an event was sent, how many events were imported. A job that failed prints nothing but its
/// error.
pub proof fn law_people_are_told_what_was_done(
    outcome: Result<Option<Output>, Error>,
    command: Commands,
    result: JobResult,
)
    requires
        responds(outcome, command, OutputFormat::Human, result),
    ensures
        result matches Err(e) ==> (outcome matches Err(Error::Worker(w)) && w == e),
        command matches Commands::Sites { command: SitesCommand::Delete(args) } ==> ((
        result matches Ok(JobResponse::SiteDeleted) || result matches Ok(
            JobResponse::Acknowledged,
        )) ==> (outcome matches Ok(Some(o)) && o.says("Site '"@ + args.site@ + "' deleted."@))),
        command matches Commands::Sites { command: SitesCommand::Reset(args) } ==> ((
        result matches Ok(JobResponse::SiteReset) || result matches Ok(JobResponse::Acknowledged))
            ==> (outcome matches Ok(Some(o)) && o.says(
            "Site statistics reset queued successfully."@,
        ))),
        command matches Commands::Events { command: EventsCommand::Send(_) } ==> ((
        result matches Ok(JobResponse::EventAck) || result matches Ok(JobResponse::Acknowledged))
            ==> (outcome matches Ok(Some(o)) && o.says("Event dispatched to Plausible."@))),
        command matches Commands::Events { command: EventsCommand::Send(_) } ==> (
        result matches Ok(JobResponse::EventsProcessed { processed }) ==> (outcome matches Ok(
            Some(o),
        ) && o.says("Processed batch containing "@ + text::decimal(processed as nat) + " events."@))),
        command matches Commands::Events { command: EventsCommand::Import(_) } ==> (
        result matches Ok(JobResponse::EventsProcessed { processed }) ==> (outcome matches Ok(
            Some(o),
        ) && o.says("Imported "@ + text::decimal(processed as nat) + " events."@))),
        command matches Commands::Events { command: EventsCommand::Import(_) } ==> ((
        result matches Ok(JobResponse::EventAck) || result matches Ok(JobResponse::Acknowledged))
            ==> (outcome matches Ok(Some(o)) && o.says("Import completed."@))),
{
}

/// Programs are told what a command did by a document: which site was deleted or reset, that an
/// event was sent, how many events were processed.
pub proof fn law_programs_are_told_what_was_done(
    outcome: Result<Option<Output>, Error>,
    command: Commands,
    result: JobResult,
)
    requires
        responds(outcome, command, OutputFormat::Json, result),
    ensures
        result matches Err(e) ==> (outcome matches Err(Error::Worker(w)) && w == e),
        command matches Commands::Sites { command: SitesCommand::Delete(args) } ==> ((
        result matches Ok(JobResponse::SiteDeleted) || result matches Ok(
            JobResponse::Acknowledged,
        )) ==> tells_member(outcome, "site"@, json::Json::Text(args.site@)) && tells_member(
            outcome,
            "deleted"@,
            json::Json::Bool(true),
        )),
        command matches Commands::Sites { command: SitesCommand::Reset(args) } ==> ((
        result matches Ok(JobResponse::SiteReset) || result matches Ok(JobResponse::Acknowledged))
            ==> tells_member(outcome, "site"@, json::Json::Text(args.site@)) && tells_member(
            outcome,
            "reset"@,
            json::Json::Bool(true),
        )),
        command matches Commands::Events { command: EventsCommand::Send(_) } ==> ((
        result matches Ok(JobResponse::EventAck) || result matches Ok(JobResponse::Acknowledged))
            ==> tells_member(outcome, "sent"@, json::Json::Bool(true))),
        command matches Commands::Events { command: EventsCommand::Import(_) } ==> ((
        result matches Ok(JobResponse::EventAck) || result matches Ok(JobResponse::Acknowledged))
            ==> tells_member(outcome, "acknowledged"@, json::Json::Bool(true))),
        result matches Ok(JobResponse::EventsProcessed { processed }) ==> tells_member(
            outcome,
            "processed"@,
            json::Json::Number(text::decimal(processed as nat)),
        ),
        result matches Ok(JobResponse::Custom(value)) ==> (outcome matches Ok(printed) ==> (
        printed matches Some(Output::Text(t)) && json::pretty(json::content(value)) == Ok::<
            Seq<char>,
            Seq<char>,
        >(t@))),
{
    if let Commands::Sites { command: SitesCommand::Delete(args) } = command {
        law_documents_name_the_site(args.site@, true);
    }
    if let Commands::Sites { command: SitesCommand::Reset(args) } = command {
        law_documents_name_the_site(args.site@, true);
    }
    law_documents_tell_the_number(0, "sent"@);
    law_documents_tell_the_number(0, "acknowledged"@);
    if let Ok(JobResponse::EventsProcessed { processed }) = result {
        law_documents_tell_the_number(processed as nat, "processed"@);
    }
}

/// Whether what is printed, if anything can be, is the notation of a document with a given member.
pub open spec fn tells_member(
    outcome: Result<Option<Output>, Error>,
    name: Seq<char>,
    value: json::Json,
) -> bool {
    match outcome {
        Ok(printed) => {
            &&& printed matches Some(Output::Text(t))
            &&& exists|document: json::Json|
                {
                    &&& #[trigger] json::pretty(document) == Ok::<Seq<char>, Seq<char>>(t@)
                    &&& json::has(document, name, value)
                }
        },
        Err(e) => e is Serialization,
    }
}

/// An event that was read is sent unless its text is blank or denotes no object, and is sent as the
/// object that the text denotes, but for the domain that was asked for.
pub proof fn law_event_that_was_read_is_sent(
    outcome: Result<Step, Error>,
    args: EventSendArgs,
    alias: Seq<char>,
    read: Result<String, String>,
)
    requires
        sends_read(outcome, args, alias, read),
    ensures
        read matches Err(failure) ==> (outcome matches Err(Error::Runtime(m)) && m == failure),
        read matches Ok(raw) ==> {
            &&& text::blank(raw@) ==> (outcome matches Err(Error::InvalidInput(m)) && m@
                == "event payload is empty"@)
            &&& outcome matches Ok(step) ==> {
                &&& step matches Step::Submit { request, weight }
                &&& request.account@ == alias
                &&& weight@ == 1
                &&& request.kind matches JobKind::EventSend { event }
                &&& json::parsed(text::trimmed(raw@)) matches Ok(value)
                &&& events::is_value_but_for_domain(
                    json::content(event),
                    value,
                    args.domain.deep_view(),
                )
            }
            &&& !text::blank(raw@) && (json::parsed(text::trimmed(raw@)) matches Ok(
                json::Json::Object(_),
            )) ==> outcome is Ok
        },
{
    if let Ok(raw) = read {
        text::lemma_trimmed_empty(raw@);
    }
}

/// Events that were read are submitted as one job, which weighs as much as there are lines that are
/// not blank: each of them is one event, in the order of the lines, and is the object that the line
/// denotes, but for the domain that was asked for. A dry run submits nothing.
pub proof fn law_events_that_were_read_are_imported(
    outcome: Result<Step, Error>,
    args: EventImportArgs,
    alias: Seq<char>,
    format: OutputFormat,
    raw: String,
    i: int,
)
    requires
        imports_read(outcome, args, alias, format, Ok(raw)),
        0 <= i < text::lines(raw@).len(),
        !text::blank(text::lines(raw@)[i]),
    ensures
        args.dry_run ==> (outcome matches Ok(step) ==> step is Done),
        !args.dry_run ==> (outcome matches Ok(step) ==> {
            let lines = text::lines(raw@);
            &&& step matches Step::Submit { request, weight }
            &&& request.account@ == alias
            &&& request.kind matches JobKind::EventsImport { events }
            &&& events@.len() == events::filled(lines)
            &&& weight@ == events::filled(lines)
            &&& events::filled(lines.take(i)) < events@.len()
            &&& json::parsed(text::trimmed(lines[i])) matches Ok(value)
            &&& events::is_value_but_for_domain(
                json::content(events@[events::filled(lines.take(i)) as int]),
                value,
                args.domain.deep_view(),
            )
        }),
{
    let lines = text::lines(raw@);
    let domain = args.domain.deep_view();
    if let Ok(list) = events::imported(lines, domain) {
        if !args.dry_run && list.len() > 0 {
            law_import_submits_its_lines(outcome, lines, domain, alias, format, i);
        }
    }
}

/// An import that could not be read, or that holds no events, is refused.
pub proof fn law_nothing_to_import_is_refused(
    outcome: Result<Step, Error>,
    args: EventImportArgs,
    alias: Seq<char>,
    format: OutputFormat,
    read: Result<String, String>,
)
    requires
        imports_read(outcome, args, alias, format, read),
    ensures
        read matches Err(failure) ==> (outcome matches Err(Error::Runtime(m)) && m == failure),
        read matches Ok(raw) && events::filled(text::lines(raw@)) == 0 ==> (outcome matches Err(
            Error::InvalidInput(m),
        ) && m@ == "no events found in input"@),
{
    if let Ok(raw) = read {
        let lines = text::lines(raw@);
        let domain = args.domain.deep_view();
        events::law_import_holds_one_event_per_line(lines, domain);
        if events::filled(lines) == 0 {
            events::law_blank_lines_hold_no_events(lines, domain);
        }
    }
}

/// The commands that show the budget or the queue, or wait for the queue to be empty, ask for just
/// that, whatever the account and the format are; the example of an event is printed at once, with a
/// heading for people and as it is for programs.
pub proof fn law_views_ask_for_what_they_show(
    outcome: Result<Step, Error>,
    command: Commands,
    alias: Seq<char>,
    format: OutputFormat,
)
    requires
        plans(outcome, command, alias, format),
    ensures
        command is Status ==> (outcome matches Ok(step) && step is ShowStatus),
        command matches Commands::Queue { command: QueueCommand::Inspect } ==> (outcome matches Ok(
            step,
        ) && step is InspectQueue),
        command matches Commands::Queue { command: QueueCommand::Drain } ==> (outcome matches Ok(
            step,
        ) && step is AwaitIdle),
        command matches Commands::Events { command: EventsCommand::Template } ==> {
            &&& json::pretty(status::sample_event()) matches Ok(sample) ==> {
                &&& outcome matches Ok(Step::Done(printed))
                &&& format == OutputFormat::Human ==> printed.says(
                    "Sample event payload:\n"@ + sample,
                )
                &&& format == OutputFormat::Json ==> printed.says(sample)
            }
            &&& json::pretty(status::sample_event()) matches Err(e) ==> (outcome matches Err(
                Error::Serialization(m),
            ) && m@ == e)
        },
        command matches Commands::Sites { command: c } ==> (outcome matches Ok(step)
            && plans_sites(step, c, alias, format)),
        command matches Commands::Stats { command: c } ==> (outcome matches Ok(step)
            && plans_stats(step, c, alias)),
        command matches Commands::Events { command: EventsCommand::Send(args) } ==> plans_send(
            outcome,
            args,
        ),
        command matches Commands::Events { command: EventsCommand::Import(args) } ==> plans_import(
            outcome,
            args,
        ),
{
}

/// What a command fetched is shown in the format that is asked for: sites, a site that was created or
/// changed, and statistics. Programs are shown it whatever the command was, people if it is what the
/// command asked for.
pub proof fn law_what_was_fetched_is_shown(
    outcome: Result<Option<Output>, Error>,
    command: Commands,
    format: OutputFormat,
    response: JobResponse,
)
    requires
        responds(outcome, command, format, Ok(response)),
    ensures
        response matches JobResponse::Sites(sites) ==> (format == OutputFormat::Json
            || (command matches Commands::Sites { command: SitesCommand::List }) ==> shows(
            outcome,
            results::told_sites(sites@, format),
        )),
        response matches JobResponse::SiteCreated(site) ==> (format == OutputFormat::Json
            || (command matches Commands::Sites { command: SitesCommand::Create(_) }) ==> shows(
            outcome,
            results::told_site(site, format),
        )),
        response matches JobResponse::SiteUpdated(site) ==> (format == OutputFormat::Json
            || (command matches Commands::Sites { command: SitesCommand::Update(_) }) ==> shows(
            outcome,
            results::told_site(site, format),
        )),
        response matches JobResponse::StatsAggregate(r) ==> (format == OutputFormat::Json
            || (command matches Commands::Stats { command: StatsCommand::Aggregate(_) }) ==> shows(
            outcome,
            results::told_aggregate(r, format),
        )),
        response matches JobResponse::StatsTimeseries(r) ==> (format == OutputFormat::Json
            || (command matches Commands::Stats { command: StatsCommand::Timeseries(_) }) ==> shows(
            outcome,
            results::told_timeseries(r, format),
        )),
        response matches JobResponse::StatsBreakdown(r) ==> (format == OutputFormat::Json
            || (command matches Commands::Stats { command: StatsCommand::Breakdown(_) }) ==> shows(
            outcome,
            results::told_breakdown(r, format),
        )),
        response matches JobResponse::StatsRealtime(r) ==> (format == OutputFormat::Json
            || (command matches Commands::Stats { command: StatsCommand::Realtime(_) }) ==> shows(
            outcome,
            results::told_realtime(r, format),
        )),
{
}

/// Whether what is printed is a given text, or is refused because there is none.
pub open spec fn shows(
    outcome: Result<Option<Output>, Error>,
    told: Result<Seq<char>, Seq<char>>,
) -> bool {
    match told {
        Ok(text) => outcome matches Ok(Some(Output::Text(t))) && t@ == text,
        Err(e) => outcome matches Err(Error::Serialization(m)) && m@ == e,
    }
}

/// People are shown nothing of a response that is not what a command on sites or on statistics asked
/// for, and the whole of one that is not what a command on events expects.
pub proof fn law_unexpected_responses_are_passed_over(
    outcome: Result<Option<Output>, Error>,
    command: Commands,
    response: JobResponse,
)
    requires
        responds(outcome, command, OutputFormat::Human, Ok(response)),
    ensures
        command is Stats && (response is Sites || response is SiteCreated || response is SiteUpdated
            || response is SiteReset || response is SiteDeleted || response is EventAck
            || response is EventsProcessed || response is Acknowledged || response is Custom)
            ==> outcome matches Ok(None),
        command is Sites && (response is StatsAggregate || response is StatsTimeseries
            || response is StatsBreakdown || response is StatsRealtime || response is EventAck
            || response is EventsProcessed || response is Custom) ==> outcome matches Ok(None),
        command matches Commands::Events { command: EventsCommand::Send(_) } ==> (response is Sites
            || response is SiteCreated || response is SiteUpdated || response is SiteReset
            || response is SiteDeleted ==> (outcome matches Ok(
            Some(Output::Response { title, response: r }),
        ) && title@ == "Event response"@ && r == response)),
        command matches Commands::Events { command: EventsCommand::Import(_) } ==> (
        response is Sites || response is SiteCreated || response is SiteUpdated
            || response is SiteReset || response is SiteDeleted ==> (outcome matches Ok(
            Some(Output::Response { title, response: r }),
        ) && title@ == "Import response"@ && r == response)),
{
}

} // verus!
