//! Jobs and accounts, as they are printed.

use super::{
    answer, number_value, or_dash, or_text, print, push_cell, push_row, table_text, text_value,
    yielded, Output, OutputFormat,
};
use crate::clock;
use crate::clock::{format_timestamp, Timestamp};
use crate::config::accounts::{AccountExport, AccountSummary};
use crate::json;
use crate::json::{
    array_of, object_of, push_member, push_text, push_value, records_text, single, Datum,
};
use crate::nonzero;
use crate::output;
use crate::queue::{QueueJobState, QueueSnapshot};
use crate::text;
use crate::text::decimal_text;
use crate::Error;
use serde_json::Value;
use vstd::prelude::*;
use vstd::string::*;

verus! {

/// A moment in RFC 3339 notation, or a note that there is none.
pub open spec fn moment_or(t: Option<Timestamp>) -> Seq<char> {
    match t {
        Some(t) => clock::shown(t),
        None => "n/a"@,
    }
}

/// The cells of a job in the queue.
pub open spec fn job_cells(job: QueueSnapshot) -> Seq<Seq<char>> {
    seq![
        text::decimal(job.id as nat),
        job.account@,
        job.description@,
        match job.state {
            QueueJobState::Pending => "pending"@,
            QueueJobState::InFlight => "in-flight"@,
        },
        clock::shown(job.enqueued_at),
        moment_or(job.started_at),
    ]
}

/// The row of a job in the queue.
pub fn queue_row(job: &QueueSnapshot) -> (row: Vec<String>)
    requires
        job.valid(),
    ensures
        text::views(row@) == job_cells(*job),
{
    let mut row: Vec<String> = Vec::new();
    push_cell(&mut row, decimal_text(job.id));
    push_cell(&mut row, job.account.clone());
    push_cell(&mut row, job.description.clone());
    push_cell(
        &mut row,
        match job.state {
            QueueJobState::Pending => "pending".to_owned(),
            QueueJobState::InFlight => "in-flight".to_owned(),
        },
    );
    push_cell(&mut row, format_timestamp(&job.enqueued_at));
    push_cell(
        &mut row,
        match &job.started_at {
            Some(t) => format_timestamp(t),
            None => "n/a".to_owned(),
        },
    );
    assert(text::views(row@) =~= job_cells(*job));
    row
}

/// The headings of a table of jobs.
pub open spec fn job_headings() -> Seq<Seq<char>> {
    seq!["id"@, "account"@, "description"@, "state"@, "enqueued_at"@, "started_at"@]
}

fn job_heading_row() -> (row: Vec<String>)
    ensures
        text::views(row@) == job_headings(),
{
    let mut row: Vec<String> = Vec::new();
    push_cell(&mut row, "id".to_owned());
    push_cell(&mut row, "account".to_owned());
    push_cell(&mut row, "description".to_owned());
    push_cell(&mut row, "state".to_owned());
    push_cell(&mut row, "enqueued_at".to_owned());
    push_cell(&mut row, "started_at".to_owned());
    assert(text::views(row@) =~= job_headings());
    row
}

/// The table of jobs.
pub open spec fn jobs_table(jobs: Seq<QueueSnapshot>) -> Seq<Seq<Seq<char>>> {
    seq![job_headings()] + jobs.map_values(|j: QueueSnapshot| job_cells(j))
}

/// The state of a job, as it is named in a document.
pub open spec fn state_tag(state: QueueJobState) -> Seq<char> {
    match state {
        QueueJobState::Pending => "pending"@,
        QueueJobState::InFlight => "in_flight"@,
    }
}

/// A moment in RFC 3339 notation, or nothing.
pub open spec fn shown_json(t: Option<Timestamp>) -> json::Json {
    match t {
        Some(t) => json::Json::Text(clock::shown(t)),
        None => json::Json::Null,
    }
}

/// A job in the queue as a document.
pub open spec fn job_document(job: QueueSnapshot) -> json::Json {
    json::object(
        seq![
            ("id"@, json::Json::Number(text::decimal(job.id as nat))),
            ("account"@, json::Json::Text(job.account@)),
            ("description"@, json::Json::Text(job.description@)),
            ("state"@, json::Json::Text(state_tag(job.state))),
            ("enqueued_at"@, json::Json::Text(clock::shown(job.enqueued_at))),
            ("started_at"@, shown_json(job.started_at)),
        ],
    )
}

fn job_value(job: &QueueSnapshot) -> (value: Value)
    requires
        job.valid(),
    ensures
        json::content(value) == job_document(*job),
{
    let state = match job.state {
        QueueJobState::Pending => "pending".to_owned(),
        QueueJobState::InFlight => "in_flight".to_owned(),
    };
    let started_at = match &job.started_at {
        Some(t) => single(Datum::Text(format_timestamp(t))),
        None => single(Datum::Null),
    };
    let mut list: Vec<(String, Value)> = Vec::new();
    push_member(&mut list, "id", single(Datum::Number(job.id)));
    push_text(&mut list, "account", job.account.as_str());
    push_text(&mut list, "description", job.description.as_str());
    push_text(&mut list, "state", state.as_str());
    push_text(&mut list, "enqueued_at", format_timestamp(&job.enqueued_at).as_str());
    push_member(&mut list, "started_at", started_at);
    assert(json::member_contents(list@) =~= seq![
        ("id"@, json::Json::Number(text::decimal(job.id as nat))),
        ("account"@, json::Json::Text(job.account@)),
        ("description"@, json::Json::Text(job.description@)),
        ("state"@, json::Json::Text(state_tag(job.state))),
        ("enqueued_at"@, json::Json::Text(clock::shown(job.enqueued_at))),
        ("started_at"@, shown_json(job.started_at)),
    ]);
    object_of(list)
}

/// The jobs in the queue as a document.
pub open spec fn jobs_document(jobs: Seq<QueueSnapshot>) -> json::Json {
    json::Json::Array(jobs.map_values(|j: QueueSnapshot| job_document(j)))
}

/// What is printed of the jobs in a queue, for people.
pub open spec fn jobs_text(jobs: Seq<QueueSnapshot>) -> Seq<char> {
    if jobs.len() == 0 {
        "Queue is empty."@
    } else {
        output::table(jobs_table(jobs))
    }
}

/// Prints the jobs in the queue.
pub fn render_queue_snapshot(snapshot: &Vec<QueueSnapshot>, format: OutputFormat) -> (outcome:
    Result<Output, Error>)
    requires
        forall|i: int| 0 <= i < snapshot@.len() ==> (#[trigger] snapshot@[i]).valid(),
    ensures
        output::tells(outcome, format, jobs_text(snapshot@), jobs_document(snapshot@)),
{
    match format {
        OutputFormat::Human => {
            if snapshot.len() == 0 {
                return Ok(Output::Text("Queue is empty.".to_owned()));
            }
            let mut rows: Vec<Vec<String>> = Vec::new();
            push_row(&mut rows, job_heading_row());
            assert(output::row_views(rows@) =~= jobs_table(snapshot@.take(0)));
            let mut i: usize = 0;
            while i < snapshot.len()
                invariant
                    i <= snapshot@.len(),
                    forall|k: int| 0 <= k < snapshot@.len() ==> (#[trigger] snapshot@[k]).valid(),
                    output::row_views(rows@) == jobs_table(snapshot@.take(i as int)),
                decreases snapshot@.len() - i,
            {
                push_row(&mut rows, queue_row(&snapshot[i]));
                i = i + 1;
                assert(output::row_views(rows@) =~= jobs_table(snapshot@.take(i as int)));
            }
            assert(snapshot@.take(i as int) =~= snapshot@);
            Ok(Output::Text(table_text(rows)))
        },
        OutputFormat::Json => {
            let mut list: Vec<Value> = Vec::new();
            let ghost expected = snapshot@.map_values(|j: QueueSnapshot| job_document(j));
            assert(json::contents(list@) =~= expected.take(0));
            let mut i: usize = 0;
            while i < snapshot.len()
                invariant
                    i <= snapshot@.len(),
                    expected == snapshot@.map_values(|j: QueueSnapshot| job_document(j)),
                    forall|k: int| 0 <= k < snapshot@.len() ==> (#[trigger] snapshot@[k]).valid(),
                    json::contents(list@) == expected.take(i as int),
                decreases snapshot@.len() - i,
            {
                push_value(&mut list, job_value(&snapshot[i]));
                i = i + 1;
                assert(json::contents(list@) =~= expected.take(i as int));
            }
            assert(expected.take(i as int) =~= expected);
            print(&array_of(list))
        },
    }
}

/// The cells of an account in a list.
pub open spec fn account_cells(account: AccountSummary) -> Seq<Seq<char>> {
    seq![
        account.alias@,
        output::text_or(account.profile.label.deep_view(), "n/a"@),
        output::text_or(account.profile.email.deep_view(), "n/a"@),
        output::yes_or_no(account.is_default),
        output::number_or_dash(nonzero::plain(account.daily_budget)),
    ]
}

/// The row of an account in a list.
pub fn account_row(account: &AccountSummary) -> (row: Vec<String>)
    ensures
        text::views(row@) == account_cells(*account),
{
    let mut row: Vec<String> = Vec::new();
    push_cell(&mut row, account.alias.clone());
    push_cell(&mut row, or_text(&account.profile.label, "n/a"));
    push_cell(&mut row, or_text(&account.profile.email, "n/a"));
    push_cell(&mut row, answer(account.is_default));
    push_cell(&mut row, or_dash(nonzero::get_plain(account.daily_budget)));
    assert(text::views(row@) =~= account_cells(*account));
    row
}

/// The headings of a list of accounts.
pub open spec fn account_headings() -> Seq<Seq<char>> {
    seq!["alias"@, "label"@, "email"@, "default"@, "daily_budget"@]
}

fn account_heading_row() -> (row: Vec<String>)
    ensures
        text::views(row@) == account_headings(),
{
    let mut row: Vec<String> = Vec::new();
    push_cell(&mut row, "alias".to_owned());
    push_cell(&mut row, "label".to_owned());
    push_cell(&mut row, "email".to_owned());
    push_cell(&mut row, "default".to_owned());
    push_cell(&mut row, "daily_budget".to_owned());
    assert(text::views(row@) =~= account_headings());
    row
}

/// The table of accounts.
pub open spec fn accounts_table(accounts: Seq<AccountSummary>) -> Seq<Seq<Seq<char>>> {
    seq![account_headings()] + accounts.map_values(|a: AccountSummary| account_cells(a))
}

/// An account in a list as a document.
pub open spec fn account_document(account: AccountSummary) -> json::Json {
    json::object(
        seq![
            ("alias"@, json::Json::Text(account.alias@)),
            ("label"@, output::text_json(account.profile.label.deep_view())),
            ("email"@, output::text_json(account.profile.email.deep_view())),
            ("description"@, output::text_json(account.profile.description.deep_view())),
            ("default"@, json::Json::Bool(account.is_default)),
            ("daily_budget"@, output::number_json(nonzero::plain(account.daily_budget))),
        ],
    )
}

fn account_value(account: &AccountSummary) -> (value: Value)
    ensures
        json::content(value) == account_document(*account),
{
    let mut list: Vec<(String, Value)> = Vec::new();
    push_text(&mut list, "alias", account.alias.as_str());
    push_member(&mut list, "label", text_value(&account.profile.label));
    push_member(&mut list, "email", text_value(&account.profile.email));
    push_member(&mut list, "description", text_value(&account.profile.description));
    push_member(&mut list, "default", single(Datum::Bool(account.is_default)));
    push_member(
        &mut list,
        "daily_budget",
        number_value(nonzero::get_plain(account.daily_budget)),
    );
    assert(json::member_contents(list@) =~= seq![
        ("alias"@, json::Json::Text(account.alias@)),
        ("label"@, output::text_json(account.profile.label.deep_view())),
        ("email"@, output::text_json(account.profile.email.deep_view())),
        ("description"@, output::text_json(account.profile.description.deep_view())),
        ("default"@, json::Json::Bool(account.is_default)),
        ("daily_budget"@, output::number_json(nonzero::plain(account.daily_budget))),
    ]);
    object_of(list)
}

/// A list of accounts as a document.
pub open spec fn accounts_document(accounts: Seq<AccountSummary>) -> json::Json {
    json::Json::Array(accounts.map_values(|a: AccountSummary| account_document(a)))
}

/// Prints a list of accounts.
pub fn render_account_list(accounts: &Vec<AccountSummary>, format: OutputFormat) -> (outcome:
    Result<Output, Error>)
    ensures
        output::tells(
            outcome,
            format,
            output::table(accounts_table(accounts@)),
            accounts_document(accounts@),
        ),
{
    match format {
        OutputFormat::Human => {
            let mut rows: Vec<Vec<String>> = Vec::new();
            push_row(&mut rows, account_heading_row());
            assert(output::row_views(rows@) =~= accounts_table(accounts@.take(0)));
            let mut i: usize = 0;
            while i < accounts.len()
                invariant
                    i <= accounts@.len(),
                    output::row_views(rows@) == accounts_table(accounts@.take(i as int)),
                decreases accounts@.len() - i,
            {
                push_row(&mut rows, account_row(&accounts[i]));
                i = i + 1;
                assert(output::row_views(rows@) =~= accounts_table(accounts@.take(i as int)));
            }
            assert(accounts@.take(i as int) =~= accounts@);
            Ok(Output::Text(table_text(rows)))
        },
        OutputFormat::Json => {
            let mut list: Vec<Value> = Vec::new();
            let ghost expected = accounts@.map_values(|a: AccountSummary| account_document(a));
            assert(json::contents(list@) =~= expected.take(0));
            let mut i: usize = 0;
            while i < accounts.len()
                invariant
                    i <= accounts@.len(),
                    expected == accounts@.map_values(|a: AccountSummary| account_document(a)),
                    json::contents(list@) == expected.take(i as int),
                decreases accounts@.len() - i,
            {
                push_value(&mut list, account_value(&accounts[i]));
                i = i + 1;
                assert(json::contents(list@) =~= expected.take(i as int));
            }
            assert(expected.take(i as int) =~= expected);
            print(&array_of(list))
        },
    }
}

/// The cells of an exported account.
pub open spec fn export_cells(export: AccountExport) -> Seq<Seq<char>> {
    seq![
        export.alias@,
        output::text_or(export.label.deep_view(), "n/a"@),
        output::text_or(export.email.deep_view(), "n/a"@),
        output::yes_or_no(export.is_default),
        output::text_or(export.description.deep_view(), ""@),
        output::number_or_dash(export.daily_budget),
    ]
}

/// The row of an exported account.
pub fn export_row(export: &AccountExport) -> (row: Vec<String>)
    ensures
        text::views(row@) == export_cells(*export),
{
    let mut row: Vec<String> = Vec::new();
    push_cell(&mut row, export.alias.clone());
    push_cell(&mut row, or_text(&export.label, "n/a"));
    push_cell(&mut row, or_text(&export.email, "n/a"));
    push_cell(&mut row, answer(export.is_default));
    push_cell(&mut row, or_text(&export.description, ""));
    push_cell(&mut row, or_dash(export.daily_budget));
    assert(text::views(row@) =~= export_cells(*export));
    row
}

/// The headings of a table of exported accounts.
pub open spec fn export_headings() -> Seq<Seq<char>> {
    seq!["alias"@, "label"@, "email"@, "default"@, "description"@, "daily_budget"@]
}

fn export_heading_row() -> (row: Vec<String>)
    ensures
        text::views(row@) == export_headings(),
{
    let mut row: Vec<String> = Vec::new();
    push_cell(&mut row, "alias".to_owned());
    push_cell(&mut row, "label".to_owned());
    push_cell(&mut row, "email".to_owned());
    push_cell(&mut row, "default".to_owned());
    push_cell(&mut row, "description".to_owned());
    push_cell(&mut row, "daily_budget".to_owned());
    assert(text::views(row@) =~= export_headings());
    row
}

/// The table of exported accounts.
pub open spec fn exports_table(exports: Seq<AccountExport>) -> Seq<Seq<Seq<char>>> {
    seq![export_headings()] + exports.map_values(|e: AccountExport| export_cells(e))
}

/// Prints exported accounts as a table.
pub fn render_account_export(exports: &Vec<AccountExport>) -> (output: Output)
    ensures
        output.says(output::table(exports_table(exports@))),
{
    let mut rows: Vec<Vec<String>> = Vec::new();
    push_row(&mut rows, export_heading_row());
    assert(output::row_views(rows@) =~= exports_table(exports@.take(0)));
    let mut i: usize = 0;
    while i < exports.len()
        invariant
            i <= exports@.len(),
            output::row_views(rows@) == exports_table(exports@.take(i as int)),
        decreases exports@.len() - i,
    {
        push_row(&mut rows, export_row(&exports[i]));
        i = i + 1;
        assert(output::row_views(rows@) =~= exports_table(exports@.take(i as int)));
    }
    assert(exports@.take(i as int) =~= exports@);
    Output::Text(table_text(rows))
}

/// An exported account as a record.
pub open spec fn export_record(export: AccountExport) -> Seq<json::Member> {
    seq![
        ("alias"@, json::Json::Text(export.alias@)),
        ("is_default"@, json::Json::Bool(export.is_default)),
        ("label"@, output::text_json(export.label.deep_view())),
        ("email"@, output::text_json(export.email.deep_view())),
        ("description"@, output::text_json(export.description.deep_view())),
        ("daily_budget"@, output::number_json(export.daily_budget)),
    ]
}

fn export_members(export: &AccountExport) -> (list: Vec<(String, Value)>)
    ensures
        json::member_contents(list@) == export_record(*export),
{
    let mut list: Vec<(String, Value)> = Vec::new();
    push_text(&mut list, "alias", export.alias.as_str());
    push_member(&mut list, "is_default", single(Datum::Bool(export.is_default)));
    push_member(&mut list, "label", text_value(&export.label));
    push_member(&mut list, "email", text_value(&export.email));
    push_member(&mut list, "description", text_value(&export.description));
    push_member(&mut list, "daily_budget", number_value(export.daily_budget));
    assert(json::member_contents(list@) =~= export_record(*export));
    list
}

/// Exported accounts as records.
pub open spec fn export_records(exports: Seq<AccountExport>) -> Seq<Seq<json::Member>> {
    exports.map_values(|e: AccountExport| export_record(e))
}

/// What is printed of exported accounts: a table for people, records for programs.
pub open spec fn told_exports(exports: Seq<AccountExport>, format: OutputFormat) -> Result<
    Seq<char>,
    Seq<char>,
> {
    match format {
        OutputFormat::Human => Ok(output::table(exports_table(exports))),
        OutputFormat::Json => json::pretty_records(export_records(exports)),
    }
}

/// Prints exported accounts.
pub fn print_account_export(exports: &Vec<AccountExport>, format: OutputFormat) -> (outcome: Result<
    Output,
    Error,
>)
    ensures
        output::yields(outcome, told_exports(exports@, format)),
{
    if format == OutputFormat::Human {
        return Ok(render_account_export(exports));
    }
    let mut rows: Vec<Vec<(String, Value)>> = Vec::new();
    assert(json::row_contents(rows@) =~= export_records(exports@.take(0)));
    let mut i: usize = 0;
    while i < exports.len()
        invariant
            i <= exports@.len(),
            json::row_contents(rows@) == export_records(exports@.take(i as int)),
        decreases exports@.len() - i,
    {
        let ghost shorter = json::row_contents(rows@);
        rows.push(export_members(&exports[i]));
        i = i + 1;
        assert(json::row_contents(rows@) =~= shorter.push(export_record(exports@[i - 1])));
        assert(export_records(exports@.take(i as int)) =~= shorter.push(
            export_record(exports@[i - 1]),
        ));
    }
    assert(exports@.take(i as int) =~= exports@);
    yielded(records_text(&rows))
}

/// The table of accounts has a row for each account, in their order, below the headings. The row
/// tells under each heading what the account has there, and the one under `default` says `yes` of
/// the default account and `no` of any other.
pub proof fn law_accounts_are_shown_column_by_column(accounts: Seq<AccountSummary>, i: int)
    requires
        0 <= i < accounts.len(),
    ensures
        accounts_table(accounts).len() == accounts.len() + 1,
        ({
            let account = accounts[i];
            let head = accounts_table(accounts)[0];
            let row = accounts_table(accounts)[i + 1];
            &&& output::under(head, row, "alias"@, account.alias@)
            &&& output::under(
                head,
                row,
                "label"@,
                match account.profile.label {
                    Some(t) => t@,
                    None => "n/a"@,
                },
            )
            &&& output::under(
                head,
                row,
                "email"@,
                match account.profile.email {
                    Some(t) => t@,
                    None => "n/a"@,
                },
            )
            &&& output::under(head, row, "default"@, if account.is_default {
                "yes"@
            } else {
                "no"@
            })
            &&& output::under(
                head,
                row,
                "daily_budget"@,
                match account.daily_budget {
                    Some(n) => text::decimal(n@ as nat),
                    None => "-"@,
                },
            )
            &&& head.len() == 5
        }),
        account_cells(accounts[i])[3] == if accounts[i].is_default {
            "yes"@
        } else {
            "no"@
        },
{
    let head = accounts_table(accounts)[0];
    assert(accounts_table(accounts)[i + 1] == account_cells(accounts[i]));
    assert(head[0] == "alias"@ && head[1] == "label"@ && head[2] == "email"@);
    assert(head[3] == "default"@ && head[4] == "daily_budget"@);
}

/// In the table of the accounts of a store, exactly one row says that its account is the default:
/// that of the default account.
pub proof fn law_one_row_says_default(
    state: crate::config::accounts::StateView,
    accounts: Seq<AccountSummary>,
) -> (at: int)
    requires
        state.coherent(),
        crate::config::accounts::lists(state, accounts),
        accounts.len() > 0,
    ensures
        0 <= at < accounts.len(),
        state.default_account == Some(accounts[at].alias@),
        forall|i: int|
            #![trigger accounts_table(accounts)[i]]
            1 <= i <= accounts.len() ==> accounts_table(accounts)[i][3] == if i == at + 1 {
                "yes"@
            } else {
                "no"@
            },
{
    let at = crate::config::accounts::law_one_default_is_listed(state, accounts);
    assert(accounts[at].is_default);
    assert forall|i: int|
        #![trigger accounts_table(accounts)[i]]
        1 <= i <= accounts.len() implies accounts_table(accounts)[i][3] == if i == at + 1 {
        "yes"@
    } else {
        "no"@
    } by {
        law_accounts_are_shown_column_by_column(accounts, i - 1);
        assert(accounts_table(accounts)[i] == account_cells(accounts[i - 1]));
    }
    at
}

/// A list of accounts as a document has one object for each account, in their order, with what the
/// account has under each name, and null where it has nothing.
pub proof fn law_accounts_are_told_member_by_member(accounts: Seq<AccountSummary>, i: int)
    requires
        0 <= i < accounts.len(),
    ensures
        accounts_document(accounts) matches json::Json::Array(told) && {
            let account = accounts[i];
            &&& told.len() == accounts.len()
            &&& json::has(told[i], "alias"@, json::Json::Text(account.alias@))
            &&& json::has(
                told[i],
                "label"@,
                match account.profile.label {
                    Some(t) => json::Json::Text(t@),
                    None => json::Json::Null,
                },
            )
            &&& json::has(
                told[i],
                "email"@,
                match account.profile.email {
                    Some(t) => json::Json::Text(t@),
                    None => json::Json::Null,
                },
            )
            &&& json::has(
                told[i],
                "description"@,
                match account.profile.description {
                    Some(t) => json::Json::Text(t@),
                    None => json::Json::Null,
                },
            )
            &&& json::has(told[i], "default"@, json::Json::Bool(account.is_default))
            &&& json::has(
                told[i],
                "daily_budget"@,
                match account.daily_budget {
                    Some(n) => json::Json::Number(text::decimal(n@ as nat)),
                    None => json::Json::Null,
                },
            )
        },
{
    let account = accounts[i];
    reveal_strlit("alias");
    reveal_strlit("label");
    reveal_strlit("email");
    reveal_strlit("description");
    reveal_strlit("default");
    reveal_strlit("daily_budget");
    let list = seq![
        ("alias"@, json::Json::Text(account.alias@)),
        ("label"@, output::text_json(account.profile.label.deep_view())),
        ("email"@, output::text_json(account.profile.email.deep_view())),
        ("description"@, output::text_json(account.profile.description.deep_view())),
        ("default"@, json::Json::Bool(account.is_default)),
        ("daily_budget"@, output::number_json(nonzero::plain(account.daily_budget))),
    ];
    assert(list[0].0 == "alias"@);
    assert(list[1].0 == "label"@);
    assert(list[2].0 == "email"@);
    assert(list[3].0 == "description"@);
    assert(list[4].0 == "default"@);
    assert(list[5].0 == "daily_budget"@);
    assert("alias"@.len() == 5 && "alias"@[0] == 'a');
    assert("label"@.len() == 5 && "label"@[0] == 'l');
    assert("email"@.len() == 5 && "email"@[0] == 'e');
    assert("description"@.len() == 11);
    assert("default"@.len() == 7);
    assert("daily_budget"@.len() == 12);
    json::law_object_has_its_members(list);
    assert(account_document(account) == json::object(list));
}

/// The table of jobs has a row for each job, in their order, below the headings, and tells under
/// each heading what the job has there.
pub proof fn law_jobs_are_shown_column_by_column(jobs: Seq<QueueSnapshot>, i: int)
    requires
        0 <= i < jobs.len(),
    ensures
        jobs_text(jobs) == output::table(jobs_table(jobs)),
        jobs_text(Seq::empty()) == "Queue is empty."@,
        jobs_table(jobs).len() == jobs.len() + 1,
        ({
            let job = jobs[i];
            let head = jobs_table(jobs)[0];
            let row = jobs_table(jobs)[i + 1];
            &&& output::under(head, row, "id"@, text::decimal(job.id as nat))
            &&& output::under(head, row, "account"@, job.account@)
            &&& output::under(head, row, "description"@, job.description@)
            &&& job.state == QueueJobState::Pending ==> output::under(
                head,
                row,
                "state"@,
                "pending"@,
            )
            &&& job.state == QueueJobState::InFlight ==> output::under(
                head,
                row,
                "state"@,
                "in-flight"@,
            )
            &&& output::under(head, row, "enqueued_at"@, clock::shown(job.enqueued_at))
            &&& output::under(
                head,
                row,
                "started_at"@,
                match job.started_at {
                    Some(t) => clock::shown(t),
                    None => "n/a"@,
                },
            )
            &&& head.len() == 6
        }),
{
    let head = jobs_table(jobs)[0];
    assert(jobs_table(jobs)[i + 1] == job_cells(jobs[i]));
    assert(head[0] == "id"@ && head[1] == "account"@ && head[2] == "description"@);
    assert(head[3] == "state"@ && head[4] == "enqueued_at"@ && head[5] == "started_at"@);
}

/// The jobs as a document are one object for each job, in their order, with what the job has under
/// each name.
pub proof fn law_jobs_are_told_member_by_member(jobs: Seq<QueueSnapshot>, i: int)
    requires
        0 <= i < jobs.len(),
    ensures
        jobs_document(jobs) matches json::Json::Array(told) && {
            let job = jobs[i];
            &&& told.len() == jobs.len()
            &&& json::has(told[i], "id"@, json::Json::Number(text::decimal(job.id as nat)))
            &&& json::has(told[i], "account"@, json::Json::Text(job.account@))
            &&& json::has(told[i], "description"@, json::Json::Text(job.description@))
            &&& job.state == QueueJobState::Pending ==> json::has(
                told[i],
                "state"@,
                json::Json::Text("pending"@),
            )
            &&& job.state == QueueJobState::InFlight ==> json::has(
                told[i],
                "state"@,
                json::Json::Text("in_flight"@),
            )
            &&& json::has(
                told[i],
                "enqueued_at"@,
                json::Json::Text(clock::shown(job.enqueued_at)),
            )
            &&& json::has(
                told[i],
                "started_at"@,
                match job.started_at {
                    Some(t) => json::Json::Text(clock::shown(t)),
                    None => json::Json::Null,
                },
            )
        },
{
    let job = jobs[i];
    reveal_strlit("id");
    reveal_strlit("account");
    reveal_strlit("description");
    reveal_strlit("state");
    reveal_strlit("enqueued_at");
    reveal_strlit("started_at");
    let list = seq![
        ("id"@, json::Json::Number(text::decimal(job.id as nat))),
        ("account"@, json::Json::Text(job.account@)),
        ("description"@, json::Json::Text(job.description@)),
        ("state"@, json::Json::Text(state_tag(job.state))),
        ("enqueued_at"@, json::Json::Text(clock::shown(job.enqueued_at))),
        ("started_at"@, shown_json(job.started_at)),
    ];
    assert(list[0].0 == "id"@);
    assert(list[1].0 == "account"@);
    assert(list[2].0 == "description"@);
    assert(list[3].0 == "state"@);
    assert(list[4].0 == "enqueued_at"@);
    assert(list[5].0 == "started_at"@);
    assert("id"@.len() == 2);
    assert("account"@.len() == 7);
    assert("description"@.len() == 11 && "description"@[0] == 'd');
    assert("state"@.len() == 5);
    assert("enqueued_at"@.len() == 11 && "enqueued_at"@[0] == 'e');
    assert("started_at"@.len() == 10);
    json::law_object_has_its_members(list);
    assert(job_document(job) == json::object(list));
}

/// The table of exported accounts has a row for each account, in their order, below the headings,
/// and tells under each heading what the account has there.
pub proof fn law_exports_are_shown_column_by_column(exports: Seq<AccountExport>, i: int)
    requires
        0 <= i < exports.len(),
    ensures
        told_exports(exports, OutputFormat::Human) == Ok::<Seq<char>, Seq<char>>(
            output::table(exports_table(exports)),
        ),
        exports_table(exports).len() == exports.len() + 1,
        ({
            let export = exports[i];
            let head = exports_table(exports)[0];
            let row = exports_table(exports)[i + 1];
            &&& output::under(head, row, "alias"@, export.alias@)
            &&& output::under(
                head,
                row,
                "label"@,
                match export.label {
                    Some(t) => t@,
                    None => "n/a"@,
                },
            )
            &&& output::under(
                head,
                row,
                "email"@,
                match export.email {
                    Some(t) => t@,
                    None => "n/a"@,
                },
            )
            &&& output::under(head, row, "default"@, if export.is_default {
                "yes"@
            } else {
                "no"@
            })
            &&& output::under(
                head,
                row,
                "description"@,
                match export.description {
                    Some(t) => t@,
                    None => ""@,
                },
            )
            &&& output::under(
                head,
                row,
                "daily_budget"@,
                match export.daily_budget {
                    Some(n) => text::decimal(n as nat),
                    None => "-"@,
                },
            )
            &&& head.len() == 6
        }),
{
    let head = exports_table(exports)[0];
    assert(exports_table(exports)[i + 1] == export_cells(exports[i]));
    assert(head[0] == "alias"@ && head[1] == "label"@ && head[2] == "email"@);
    assert(head[3] == "default"@ && head[4] == "description"@ && head[5] == "daily_budget"@);
}

/// Exported accounts are one record for each account, in their order, with what the account has
/// under each name, and null where it has nothing.
pub proof fn law_exports_are_told_member_by_member(exports: Seq<AccountExport>, i: int)
    requires
        0 <= i < exports.len(),
    ensures
        told_exports(exports, OutputFormat::Json) == json::pretty_records(export_records(exports)),
        export_records(exports).len() == exports.len(),
        ({
            let export = exports[i];
            let record = export_records(exports)[i];
            &&& record.len() == 6
            &&& record.contains(("alias"@, json::Json::Text(export.alias@)))
            &&& record.contains(("is_default"@, json::Json::Bool(export.is_default)))
            &&& record.contains(
                (
                    "label"@,
                    match export.label {
                        Some(t) => json::Json::Text(t@),
                        None => json::Json::Null,
                    },
                ),
            )
            &&& record.contains(
                (
                    "email"@,
                    match export.email {
                        Some(t) => json::Json::Text(t@),
                        None => json::Json::Null,
                    },
                ),
            )
            &&& record.contains(
                (
                    "description"@,
                    match export.description {
                        Some(t) => json::Json::Text(t@),
                        None => json::Json::Null,
                    },
                ),
            )
            &&& record.contains(
                (
                    "daily_budget"@,
                    match export.daily_budget {
                        Some(n) => json::Json::Number(text::decimal(n as nat)),
                        None => json::Json::Null,
                    },
                ),
            )
        }),
{
    let record = export_records(exports)[i];
    assert(record == export_record(exports[i]));
    assert(record[0].0 == "alias"@ && record[1].0 == "is_default"@ && record[2].0 == "label"@);
    assert(record[3].0 == "email"@ && record[4].0 == "description"@);
    assert(record[5].0 == "daily_budget"@);
}

} // verus!
