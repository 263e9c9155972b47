//! Sites and statistics, as they are printed.

use super::{
    count_value, headed, or_text, or_truth, push_cell, push_row, table_text, text_value,
    truth_value, yielded, Output, OutputFormat,
};
use crate::client::{
    AggregateResponse, BreakdownResponse, Reading, RealtimeVisitorsResponse, SiteSummary,
    TimeseriesResponse,
};
use crate::json;
use crate::json::{
    array_of, entries, format_value, object_of, push_member, push_text, record_text, records_text,
    single, Datum,
};
use crate::output;
use crate::text;
use crate::text::decimal_text;
use crate::Error;
use serde_json::Value;
use vstd::prelude::*;
use vstd::string::*;

verus! {

/// The cells of a site.
pub open spec fn site_cells(site: SiteSummary) -> Seq<Seq<char>> {
    seq![
        site.domain@,
        output::text_or(site.timezone.deep_view(), "n/a"@),
        output::truth_or(site.public),
        output::truth_or(site.verified),
    ]
}

/// The row of a site.
pub fn site_row(site: &SiteSummary) -> (row: Vec<String>)
    ensures
        text::views(row@) == site_cells(*site),
{
    let mut row: Vec<String> = Vec::new();
    push_cell(&mut row, site.domain.clone());
    push_cell(&mut row, or_text(&site.timezone, "n/a"));
    push_cell(&mut row, or_truth(site.public));
    push_cell(&mut row, or_truth(site.verified));
    assert(text::views(row@) =~= site_cells(*site));
    row
}

/// The headings of a table of sites.
pub open spec fn site_headings() -> Seq<Seq<char>> {
    seq!["domain"@, "timezone"@, "public"@, "verified"@]
}

fn site_heading_row() -> (row: Vec<String>)
    ensures
        text::views(row@) == site_headings(),
{
    let mut row: Vec<String> = Vec::new();
    push_cell(&mut row, "domain".to_owned());
    push_cell(&mut row, "timezone".to_owned());
    push_cell(&mut row, "public".to_owned());
    push_cell(&mut row, "verified".to_owned());
    assert(text::views(row@) =~= site_headings());
    row
}

/// The table of sites.
pub open spec fn sites_table(sites: Seq<SiteSummary>) -> Seq<Seq<Seq<char>>> {
    seq![site_headings()] + sites.map_values(|s: SiteSummary| site_cells(s))
}

/// A site as a record.
pub open spec fn site_record(site: SiteSummary) -> Seq<json::Member> {
    seq![
        ("domain"@, json::Json::Text(site.domain@)),
        ("timezone"@, output::text_json(site.timezone.deep_view())),
        ("is_main_site"@, output::truth_json(site.is_main_site)),
        ("public"@, output::truth_json(site.public)),
        ("verified"@, output::truth_json(site.verified)),
    ]
}

fn site_members(site: &SiteSummary) -> (list: Vec<(String, Value)>)
    ensures
        json::member_contents(list@) == site_record(*site),
{
    let mut list: Vec<(String, Value)> = Vec::new();
    push_text(&mut list, "domain", site.domain.as_str());
    push_member(&mut list, "timezone", text_value(&site.timezone));
    push_member(&mut list, "is_main_site", truth_value(site.is_main_site));
    push_member(&mut list, "public", truth_value(site.public));
    push_member(&mut list, "verified", truth_value(site.verified));
    assert(json::member_contents(list@) =~= site_record(*site));
    list
}

/// Sites as records.
pub open spec fn site_records(sites: Seq<SiteSummary>) -> Seq<Seq<json::Member>> {
    sites.map_values(|s: SiteSummary| site_record(s))
}

/// What is printed of a list of sites: a table for people, records for programs.
pub open spec fn told_sites(sites: Seq<SiteSummary>, format: OutputFormat) -> Result<
    Seq<char>,
    Seq<char>,
> {
    match format {
        OutputFormat::Human => Ok(output::table(sites_table(sites))),
        OutputFormat::Json => json::pretty_records(site_records(sites)),
    }
}

/// Prints a list of sites.
pub fn render_sites(sites: &Vec<SiteSummary>, format: OutputFormat) -> (outcome: Result<
    Output,
    Error,
>)
    ensures
        output::yields(outcome, told_sites(sites@, format)),
{
    match format {
        OutputFormat::Human => {
            let mut rows: Vec<Vec<String>> = Vec::new();
            push_row(&mut rows, site_heading_row());
            assert(output::row_views(rows@) =~= sites_table(sites@.take(0)));
            let mut i: usize = 0;
            while i < sites.len()
                invariant
                    i <= sites@.len(),
                    output::row_views(rows@) == sites_table(sites@.take(i as int)),
                decreases sites@.len() - i,
            {
                push_row(&mut rows, site_row(&sites[i]));
                i = i + 1;
                assert(output::row_views(rows@) =~= sites_table(sites@.take(i as int)));
            }
            assert(sites@.take(i as int) =~= sites@);
            Ok(Output::Text(table_text(rows)))
        },
        OutputFormat::Json => {
            let mut rows: Vec<Vec<(String, Value)>> = Vec::new();
            assert(json::row_contents(rows@) =~= site_records(sites@.take(0)));
            let mut i: usize = 0;
            while i < sites.len()
                invariant
                    i <= sites@.len(),
                    json::row_contents(rows@) == site_records(sites@.take(i as int)),
                decreases sites@.len() - i,
            {
                let ghost shorter = json::row_contents(rows@);
                rows.push(site_members(&sites[i]));
                i = i + 1;
                assert(json::row_contents(rows@) =~= shorter.push(site_record(sites@[i - 1])));
                assert(site_records(sites@.take(i as int)) =~= shorter.push(
                    site_record(sites@[i - 1]),
                ));
            }
            assert(sites@.take(i as int) =~= sites@);
            yielded(records_text(&rows))
        },
    }
}

/// What is printed of a site: a table for people, a record for programs.
pub open spec fn told_site(site: SiteSummary, format: OutputFormat) -> Result<
    Seq<char>,
    Seq<char>,
> {
    match format {
        OutputFormat::Human => Ok(output::table(seq![site_headings(), site_cells(site)])),
        OutputFormat::Json => json::pretty_record(site_record(site)),
    }
}

/// Prints a site.
pub fn render_site_summary(site: &SiteSummary, format: OutputFormat) -> (outcome: Result<
    Output,
    Error,
>)
    ensures
        output::yields(outcome, told_site(*site, format)),
{
    match format {
        OutputFormat::Human => {
            let mut rows: Vec<Vec<String>> = Vec::new();
            push_row(&mut rows, site_heading_row());
            push_row(&mut rows, site_row(site));
            assert(output::row_views(rows@) =~= seq![site_headings(), site_cells(*site)]);
            Ok(Output::Text(table_text(rows)))
        },
        OutputFormat::Json => yielded(record_text(&site_members(site))),
    }
}

/// The cells of a metric.
pub open spec fn metric_cells(metric: json::Member) -> Seq<Seq<char>> {
    seq![metric.0, json::shown(metric.1)]
}

/// The table of metrics.
pub open spec fn metrics_table(list: Seq<json::Member>) -> Seq<Seq<Seq<char>>> {
    seq![seq!["metric"@, "value"@]] + list.map_values(|m: json::Member| metric_cells(m))
}

/// What an object of a response says.
pub open spec fn map_json(map: serde_json::Map<String, Value>) -> json::Json {
    json::object(json::members(map))
}

fn map_value(map: &serde_json::Map<String, Value>) -> (value: Value)
    ensures
        json::content(value) == map_json(*map),
{
    object_of(entries(map))
}

/// What an object of a response says, if it is there.
pub open spec fn totals_json(map: Option<serde_json::Map<String, Value>>) -> json::Json {
    match map {
        Some(map) => map_json(map),
        None => json::Json::Null,
    }
}

/// What a list of objects of a response says.
pub open spec fn maps_json(maps: Seq<serde_json::Map<String, Value>>) -> json::Json {
    json::Json::Array(maps.map_values(|m: serde_json::Map<String, Value>| map_json(m)))
}

fn maps_value(maps: &Vec<serde_json::Map<String, Value>>) -> (value: Value)
    ensures
        json::content(value) == maps_json(maps@),
{
    let mut list: Vec<Value> = Vec::new();
    let mut i: usize = 0;
    while i < maps.len()
        invariant
            i <= maps@.len(),
            list@.len() == i,
            forall|k: int|
                0 <= k < i ==> json::content(#[trigger] list@[k]) == map_json(maps@[k]),
        decreases maps@.len() - i,
    {
        list.push(map_value(&maps[i]));
        i = i + 1;
    }
    assert(json::contents(list@) =~= maps@.map_values(
        |m: serde_json::Map<String, Value>| map_json(m),
    ));
    array_of(list)
}

/// Aggregate metrics as a record.
pub open spec fn aggregate_record(response: AggregateResponse) -> Seq<json::Member> {
    seq![("results"@, map_json(response.results))]
}

/// What is printed of aggregate metrics: a table for people, a record for programs.
pub open spec fn told_aggregate(response: AggregateResponse, format: OutputFormat) -> Result<
    Seq<char>,
    Seq<char>,
> {
    match format {
        OutputFormat::Human => Ok(output::table(metrics_table(json::members(response.results)))),
        OutputFormat::Json => json::pretty_record(aggregate_record(response)),
    }
}

/// Prints aggregate metrics.
pub fn render_aggregate(response: &AggregateResponse, format: OutputFormat) -> (outcome: Result<
    Output,
    Error,
>)
    ensures
        output::yields(outcome, told_aggregate(*response, format)),
{
    match format {
        OutputFormat::Human => {
            let list = entries(&response.results);
            let ghost metrics = json::member_contents(list@);
            let mut rows = headed("metric", "value");
            assert(output::row_views(rows@) =~= metrics_table(metrics.take(0)));
            let mut i: usize = 0;
            while i < list.len()
                invariant
                    i <= list@.len(),
                    metrics == json::member_contents(list@),
                    output::row_views(rows@) == metrics_table(metrics.take(i as int)),
                decreases list@.len() - i,
            {
                let mut row: Vec<String> = Vec::new();
                push_cell(&mut row, list[i].0.clone());
                push_cell(&mut row, format_value(&list[i].1));
                assert(text::views(row@) =~= metric_cells(metrics[i as int]));
                push_row(&mut rows, row);
                i = i + 1;
                assert(output::row_views(rows@) =~= metrics_table(metrics.take(i as int)));
            }
            assert(metrics.take(i as int) =~= metrics);
            Ok(Output::Text(table_text(rows)))
        },
        OutputFormat::Json => {
            let mut list: Vec<(String, Value)> = Vec::new();
            push_member(&mut list, "results", map_value(&response.results));
            assert(json::member_contents(list@) =~= aggregate_record(*response));
            yielded(record_text(&list))
        },
    }
}

/// A metric and its value, as they are shown in a list of metrics.
pub open spec fn assignment(metric: json::Member) -> Seq<char> {
    metric.0 + "="@ + json::shown(metric.1)
}

/// The members of an object as assignments, except for those of given names.
pub open spec fn assignments(list: Seq<json::Member>, skip: Seq<Seq<char>>) -> Seq<Seq<char>>
    decreases list.len(),
{
    if list.len() == 0 {
        Seq::empty()
    } else if skip.contains(list.last().0) {
        assignments(list.drop_last(), skip)
    } else {
        assignments(list.drop_last(), skip).push(assignment(list.last()))
    }
}

/// The members of an object, except for those of given names, on one line.
pub open spec fn metrics_line(list: Seq<json::Member>, skip: Seq<Seq<char>>) -> Seq<char> {
    text::joined(assignments(list, skip), ", "@)
}

/// Whether a list holds a name.
fn holds(names: &Vec<String>, name: &str) -> (yes: bool)
    ensures
        yes == text::views(names@).contains(name@),
{
    let mut i: usize = 0;
    while i < names.len()
        invariant
            i <= names@.len(),
            forall|k: int| 0 <= k < i ==> text::views(names@)[k] != name@,
        decreases names@.len() - i,
    {
        if text::same(names[i].as_str(), name) {
            assert(text::views(names@)[i as int] == name@);
            return true;
        }
        i = i + 1;
    }
    false
}

/// Renders the members of an object, except for those of given names, on one line.
pub fn format_metrics(
    map: &serde_json::Map<String, Value>,
    skip: &Vec<String>,
) -> (line: String)
    ensures
        line@ == metrics_line(json::members(*map), text::views(skip@)),
{
    let list = entries(map);
    let ghost metrics = json::member_contents(list@);
    let ghost names = text::views(skip@);
    let mut parts: Vec<String> = Vec::new();
    assert(text::views(parts@) =~= assignments(metrics.take(0), names));
    let mut i: usize = 0;
    while i < list.len()
        invariant
            i <= list@.len(),
            metrics == json::member_contents(list@),
            names == text::views(skip@),
            text::views(parts@) == assignments(metrics.take(i as int), names),
        decreases list@.len() - i,
    {
        let name = list[i].0.as_str();
        assert(metrics.take(i + 1).drop_last() =~= metrics.take(i as int));
        assert(metrics.take(i + 1).last() == (name@, json::content(list@[i as int].1)));
        if !holds(skip, name) {
            let part = name.to_owned().concat("=").concat(format_value(&list[i].1).as_str());
            push_cell(&mut parts, part);
        }
        i = i + 1;
    }
    assert(metrics.take(i as int) =~= metrics);
    text::join(&parts, ", ")
}

/// The first of some members that an object has.
pub open spec fn first_named(map: Map<Seq<char>, json::Json>, names: Seq<Seq<char>>) -> Option<
    json::Json,
>
    decreases names.len(),
{
    if names.len() == 0 {
        None
    } else if map.contains_key(names[0]) {
        Some(map[names[0]])
    } else {
        first_named(map, names.drop_first())
    }
}

/// Looks up a member by its name.
fn find(list: &Vec<(String, Value)>, name: &str) -> (found: Option<usize>)
    ensures
        ({
            let map = json::by_name(json::member_contents(list@));
            match found {
                Some(i) => {
                    &&& i < list@.len()
                    &&& map.contains_key(name@)
                    &&& map[name@] == json::content(list@[i as int].1)
                },
                None => !map.contains_key(name@),
            }
        }),
{
    let ghost metrics = json::member_contents(list@);
    let ghost map = json::by_name(metrics);
    let mut n: usize = list.len();
    assert(metrics.take(n as int) =~= metrics);
    while n > 0
        invariant
            n <= list@.len(),
            metrics == json::member_contents(list@),
            map == json::by_name(metrics),
            ({
                let rest = json::by_name(metrics.take(n as int));
                &&& map.contains_key(name@) == rest.contains_key(name@)
                &&& map.contains_key(name@) ==> map[name@] == rest[name@]
            }),
        decreases n,
    {
        assert(metrics.take(n as int).drop_last() =~= metrics.take(n - 1));
        assert(metrics.take(n as int).last() == (
            list@[n - 1].0@,
            json::content(list@[n - 1].1),
        ));
        if text::same(list[n - 1].0.as_str(), name) {
            return Some(n - 1);
        }
        n = n - 1;
    }
    None
}

/// The first of some members of an object, as it is shown.
pub open spec fn label(list: Seq<json::Member>, names: Seq<Seq<char>>) -> Seq<char> {
    match first_named(json::by_name(list), names) {
        Some(value) => json::shown(value),
        None => "n/a"@,
    }
}

/// The cells of one result: what it is about, and the other members on one line.
pub open spec fn result_cells(list: Seq<json::Member>, names: Seq<Seq<char>>) -> Seq<Seq<char>> {
    seq![label(list, names), metrics_line(list, names)]
}

/// The row of one result: what it is about, and the other members on one line.
fn result_row(entry: &serde_json::Map<String, Value>, names: &Vec<String>) -> (row: Vec<String>)
    ensures
        text::views(row@) == result_cells(json::members(*entry), text::views(names@)),
{
    let list = entries(entry);
    let ghost views = text::views(names@);
    let ghost map = json::by_name(json::members(*entry));
    let mut shown: Option<String> = None;
    let mut i: usize = 0;
    assert(views.skip(0) =~= views);
    while i < names.len() && shown.is_none()
        invariant
            i <= names@.len(),
            views == text::views(names@),
            map == json::by_name(json::member_contents(list@)),
            match shown {
                None => first_named(map, views) == first_named(map, views.skip(i as int)),
                Some(t) => first_named(map, views) matches Some(v) && t@ == json::shown(v),
            },
        decreases names@.len() - i,
    {
        assert(views.skip(i as int)[0] == names@[i as int]@);
        assert(views.skip(i as int).drop_first() =~= views.skip(i + 1));
        match find(&list, names[i].as_str()) {
            Some(at) => {
                shown = Some(format_value(&list[at].1));
            },
            None => {},
        }
        i = i + 1;
    }
    let mut row: Vec<String> = Vec::new();
    push_cell(&mut row, or_text(&shown, "n/a"));
    push_cell(&mut row, format_metrics(entry, names));
    assert(text::views(row@) =~= result_cells(json::members(*entry), views));
    row
}

/// The members that tell the time of a point of a timeseries.
pub open spec fn time_names() -> Seq<Seq<char>> {
    seq!["datetime"@, "date"@, "time"@]
}

fn time_name_list() -> (names: Vec<String>)
    ensures
        text::views(names@) == time_names(),
{
    let mut names: Vec<String> = Vec::new();
    push_cell(&mut names, "datetime".to_owned());
    push_cell(&mut names, "date".to_owned());
    push_cell(&mut names, "time".to_owned());
    assert(text::views(names@) =~= time_names());
    names
}

/// The members that tell the segment of a breakdown.
pub open spec fn segment_names() -> Seq<Seq<char>> {
    seq!["value"@, "name"@]
}

fn segment_name_list() -> (names: Vec<String>)
    ensures
        text::views(names@) == segment_names(),
{
    let mut names: Vec<String> = Vec::new();
    push_cell(&mut names, "value".to_owned());
    push_cell(&mut names, "name".to_owned());
    assert(text::views(names@) =~= segment_names());
    names
}

/// The row of a point of a timeseries: its time and its metrics.
pub fn timeseries_row(entry: &serde_json::Map<String, Value>) -> (row: Vec<String>)
    ensures
        text::views(row@) == result_cells(json::members(*entry), time_names()),
{
    result_row(entry, &time_name_list())
}

/// The row of a segment of a breakdown: its name and its metrics.
pub fn breakdown_row(entry: &serde_json::Map<String, Value>) -> (row: Vec<String>)
    ensures
        text::views(row@) == result_cells(json::members(*entry), segment_names()),
{
    result_row(entry, &segment_name_list())
}

/// The table of the results of a query.
pub open spec fn results_table(
    heading: Seq<char>,
    results: Seq<serde_json::Map<String, Value>>,
    names: Seq<Seq<char>>,
) -> Seq<Seq<Seq<char>>> {
    seq![seq![heading, "metrics"@]] + results.map_values(
        |r: serde_json::Map<String, Value>| result_cells(json::members(r), names),
    )
}

/// Draws the table of the results of a query.
fn results_text(
    heading: &str,
    results: &Vec<serde_json::Map<String, Value>>,
    names: &Vec<String>,
) -> (drawing: String)
    ensures
        drawing@ == output::table(results_table(heading@, results@, text::views(names@))),
{
    let ghost views = text::views(names@);
    let mut rows = headed(heading, "metrics");
    assert(output::row_views(rows@) =~= results_table(heading@, results@.take(0), views));
    let mut i: usize = 0;
    while i < results.len()
        invariant
            i <= results@.len(),
            views == text::views(names@),
            output::row_views(rows@) == results_table(heading@, results@.take(i as int), views),
        decreases results@.len() - i,
    {
        push_row(&mut rows, result_row(&results[i], names));
        i = i + 1;
        assert(output::row_views(rows@) =~= results_table(
            heading@,
            results@.take(i as int),
            views,
        ));
    }
    assert(results@.take(i as int) =~= results@);
    table_text(rows)
}

/// A line of totals, if there are any, behind what is already there.
pub open spec fn with_totals(above: Seq<char>, totals: Seq<json::Member>) -> Seq<char> {
    if totals.len() == 0 {
        above
    } else {
        above + "\nTotals: "@ + metrics_line(totals, Seq::empty())
    }
}

fn add_totals(above: String, totals: &serde_json::Map<String, Value>) -> (lines: String)
    ensures
        lines@ == with_totals(above@, json::members(*totals)),
{
    let list = entries(totals);
    if list.len() == 0 {
        return above;
    }
    let none: Vec<String> = Vec::new();
    assert(text::views(none@) =~= Seq::empty());
    above.concat("\nTotals: ").concat(format_metrics(totals, &none).as_str())
}

/// What is printed of a timeseries.
pub open spec fn timeseries_lines(response: TimeseriesResponse) -> Seq<char> {
    with_totals(
        if response.results@.len() == 0 {
            "No timeseries data."@
        } else {
            output::table(results_table("timestamp"@, response.results@, time_names()))
        },
        json::members(response.totals),
    )
}

/// A timeseries as a record.
pub open spec fn timeseries_record(response: TimeseriesResponse) -> Seq<json::Member> {
    seq![
        ("results"@, maps_json(response.results@)),
        ("totals"@, map_json(response.totals)),
    ]
}

/// What is printed of a timeseries: lines for people, a record for programs.
pub open spec fn told_timeseries(response: TimeseriesResponse, format: OutputFormat) -> Result<
    Seq<char>,
    Seq<char>,
> {
    match format {
        OutputFormat::Human => Ok(timeseries_lines(response)),
        OutputFormat::Json => json::pretty_record(timeseries_record(response)),
    }
}

/// Prints a timeseries.
pub fn render_timeseries(response: &TimeseriesResponse, format: OutputFormat) -> (outcome: Result<
    Output,
    Error,
>)
    ensures
        output::yields(outcome, told_timeseries(*response, format)),
{
    match format {
        OutputFormat::Human => {
            let above = if response.results.len() == 0 {
                "No timeseries data.".to_owned()
            } else {
                results_text("timestamp", &response.results, &time_name_list())
            };
            Ok(Output::Text(add_totals(above, &response.totals)))
        },
        OutputFormat::Json => {
            let mut list: Vec<(String, Value)> = Vec::new();
            push_member(&mut list, "results", maps_value(&response.results));
            push_member(&mut list, "totals", map_value(&response.totals));
            assert(json::member_contents(list@) =~= timeseries_record(*response));
            yielded(record_text(&list))
        },
    }
}

/// The line that tells the page of a breakdown, if it is known.
pub open spec fn page_line(page: Option<u64>, total_pages: Option<u64>) -> Seq<char> {
    match page {
        None => Seq::empty(),
        Some(page) => match total_pages {
            None => "Page "@ + text::decimal(page as nat) + "\n"@,
            Some(total) => "Page "@ + text::decimal(page as nat) + "/"@ + text::decimal(
                total as nat,
            ) + "\n"@,
        },
    }
}

/// What is printed of a breakdown.
pub open spec fn breakdown_lines(response: BreakdownResponse) -> Seq<char> {
    let above = page_line(response.page, response.total_pages) + (if response.results@.len() == 0 {
        "No breakdown data."@
    } else {
        output::table(results_table("segment"@, response.results@, segment_names()))
    });
    match response.totals {
        None => above,
        Some(totals) => with_totals(above, json::members(totals)),
    }
}

/// A breakdown as a record.
pub open spec fn breakdown_record(response: BreakdownResponse) -> Seq<json::Member> {
    seq![
        ("results"@, maps_json(response.results@)),
        ("totals"@, totals_json(response.totals)),
        ("page"@, output::count_json(response.page)),
        ("total_pages"@, output::count_json(response.total_pages)),
    ]
}

/// What is printed of a breakdown: lines for people, a record for programs.
pub open spec fn told_breakdown(response: BreakdownResponse, format: OutputFormat) -> Result<
    Seq<char>,
    Seq<char>,
> {
    match format {
        OutputFormat::Human => Ok(breakdown_lines(response)),
        OutputFormat::Json => json::pretty_record(breakdown_record(response)),
    }
}

/// Prints a breakdown.
pub fn render_breakdown(response: &BreakdownResponse, format: OutputFormat) -> (outcome: Result<
    Output,
    Error,
>)
    ensures
        output::yields(outcome, told_breakdown(*response, format)),
{
    match format {
        OutputFormat::Human => {
            let page = match response.page {
                None => String::new(),
                Some(page) => match response.total_pages {
                    None => "Page ".to_owned().concat(decimal_text(page).as_str()).concat("\n"),
                    Some(total) => "Page ".to_owned().concat(decimal_text(page).as_str()).concat(
                        "/",
                    ).concat(decimal_text(total).as_str()).concat("\n"),
                },
            };
            assert(page@ =~= page_line(response.page, response.total_pages));
            let above = if response.results.len() == 0 {
                page.concat("No breakdown data.")
            } else {
                page.concat(
                    results_text("segment", &response.results, &segment_name_list()).as_str(),
                )
            };
            match &response.totals {
                None => Ok(Output::Text(above)),
                Some(totals) => Ok(Output::Text(add_totals(above, totals))),
            }
        },
        OutputFormat::Json => {
            let mut list: Vec<(String, Value)> = Vec::new();
            let totals = match &response.totals {
                Some(totals) => map_value(totals),
                None => single(Datum::Null),
            };
            push_member(&mut list, "results", maps_value(&response.results));
            push_member(&mut list, "totals", totals);
            push_member(&mut list, "page", count_value(response.page));
            push_member(&mut list, "total_pages", count_value(response.total_pages));
            assert(json::member_contents(list@) =~= breakdown_record(*response));
            yielded(record_text(&list))
        },
    }
}

/// What is printed of the visitors at this moment.
pub open spec fn realtime_lines(response: RealtimeVisitorsResponse) -> Seq<char> {
    "Visitors: "@ + text::decimal(response.visitors as nat) + (match response.pageviews {
        Some(n) => "\nPageviews: "@ + text::decimal(n as nat),
        None => Seq::empty(),
    }) + (match response.bounce_rate {
        Some(rate) => "\nBounce rate: "@ + rate.shown@ + "%"@,
        None => Seq::empty(),
    }) + (match response.visit_duration {
        Some(duration) => "\nVisit duration: "@ + duration.shown@ + "s"@,
        None => Seq::empty(),
    })
}

/// What a measurement says, if it was made.
pub open spec fn reading_json(reading: Option<Reading>) -> json::Json {
    match reading {
        Some(reading) => json::content(reading.number),
        None => json::Json::Null,
    }
}

fn reading_value(reading: &Option<Reading>) -> (value: Value)
    ensures
        json::content(value) == reading_json(*reading),
{
    match reading {
        Some(reading) => reading.number.clone(),
        None => single(Datum::Null),
    }
}

/// The visitors at this moment as a record.
pub open spec fn realtime_record(response: RealtimeVisitorsResponse) -> Seq<json::Member> {
    seq![
        ("visitors"@, output::count_json(Some(response.visitors))),
        ("pageviews"@, output::count_json(response.pageviews)),
        ("bounce_rate"@, reading_json(response.bounce_rate)),
        ("visit_duration"@, reading_json(response.visit_duration)),
    ]
}

/// What is printed of the visitors at this moment: lines for people, a record for programs.
pub open spec fn told_realtime(response: RealtimeVisitorsResponse, format: OutputFormat) -> Result<
    Seq<char>,
    Seq<char>,
> {
    match format {
        OutputFormat::Human => Ok(realtime_lines(response)),
        OutputFormat::Json => json::pretty_record(realtime_record(response)),
    }
}

/// Prints the visitors at this moment.
pub fn render_realtime(response: &RealtimeVisitorsResponse, format: OutputFormat) -> (outcome: Result<
    Output,
    Error,
>)
    ensures
        output::yields(outcome, told_realtime(*response, format)),
{
    match format {
        OutputFormat::Human => {
            let mut lines = "Visitors: ".to_owned().concat(
                decimal_text(response.visitors).as_str(),
            );
            match response.pageviews {
                Some(n) => {
                    lines.append("\nPageviews: ");
                    lines.append(decimal_text(n).as_str());
                },
                None => {},
            }
            match &response.bounce_rate {
                Some(rate) => {
                    lines.append("\nBounce rate: ");
                    lines.append(rate.shown.as_str());
                    lines.append("%");
                },
                None => {},
            }
            match &response.visit_duration {
                Some(duration) => {
                    lines.append("\nVisit duration: ");
                    lines.append(duration.shown.as_str());
                    lines.append("s");
                },
                None => {},
            }
            assert(lines@ =~= realtime_lines(*response));
            Ok(Output::Text(lines))
        },
        OutputFormat::Json => {
            let mut list: Vec<(String, Value)> = Vec::new();
            push_member(&mut list, "visitors", count_value(Some(response.visitors)));
            push_member(&mut list, "pageviews", count_value(response.pageviews));
            push_member(&mut list, "bounce_rate", reading_value(&response.bounce_rate));
            push_member(&mut list, "visit_duration", reading_value(&response.visit_duration));
            assert(json::member_contents(list@) =~= realtime_record(*response));
            yielded(record_text(&list))
        },
    }
}

/// Whether a row tells under each heading what a site has there.
pub open spec fn row_of_site(
    head: Seq<Seq<char>>,
    row: Seq<Seq<char>>,
    site: SiteSummary,
) -> bool {
    &&& output::under(head, row, "domain"@, site.domain@)
    &&& output::under(
        head,
        row,
        "timezone"@,
        match site.timezone {
            Some(t) => t@,
            None => "n/a"@,
        },
    )
    &&& output::under(
        head,
        row,
        "public"@,
        match site.public {
            Some(b) => if b {
                "true"@
            } else {
                "false"@
            },
            None => "n/a"@,
        },
    )
    &&& output::under(
        head,
        row,
        "verified"@,
        match site.verified {
            Some(b) => if b {
                "true"@
            } else {
                "false"@
            },
            None => "n/a"@,
        },
    )
}

/// People see a table of sites, with a row for each site in their order below the headings, which
/// tells under each heading what the site has there. A single site is shown like a list of one.
pub proof fn law_sites_are_shown_column_by_column(sites: Seq<SiteSummary>, i: int) -> (shown: Seq<
    Seq<Seq<char>>,
>)
    requires
        0 <= i < sites.len(),
    ensures
        told_sites(sites, OutputFormat::Human) == Ok::<Seq<char>, Seq<char>>(output::table(shown)),
        shown.len() == sites.len() + 1,
        shown[0].len() == 4,
        row_of_site(shown[0], shown[i + 1], sites[i]),
        told_site(sites[i], OutputFormat::Human) == told_sites(seq![sites[i]], OutputFormat::Human),
{
    let shown = sites_table(sites);
    let head = shown[0];
    assert(shown[i + 1] == site_cells(sites[i]));
    assert(head[0] == "domain"@ && head[1] == "timezone"@);
    assert(head[2] == "public"@ && head[3] == "verified"@);
    assert(sites_table(seq![sites[i]]) =~= seq![site_headings(), site_cells(sites[i])]);
    shown
}

/// Programs get a record of each site, in their order, with what the site has under each name, and
/// null where it has nothing. A single site is a single record.
pub proof fn law_sites_are_told_member_by_member(sites: Seq<SiteSummary>, i: int) -> (records: Seq<
    Seq<json::Member>,
>)
    requires
        0 <= i < sites.len(),
    ensures
        told_sites(sites, OutputFormat::Json) == json::pretty_records(records),
        told_site(sites[i], OutputFormat::Json) == json::pretty_record(records[i]),
        records.len() == sites.len(),
        records[i].len() == 5,
        records[i].contains(("domain"@, json::Json::Text(sites[i].domain@))),
        records[i].contains(
            (
                "timezone"@,
                match sites[i].timezone {
                    Some(t) => json::Json::Text(t@),
                    None => json::Json::Null,
                },
            ),
        ),
        records[i].contains(
            (
                "is_main_site"@,
                match sites[i].is_main_site {
                    Some(b) => json::Json::Bool(b),
                    None => json::Json::Null,
                },
            ),
        ),
        records[i].contains(
            (
                "public"@,
                match sites[i].public {
                    Some(b) => json::Json::Bool(b),
                    None => json::Json::Null,
                },
            ),
        ),
        records[i].contains(
            (
                "verified"@,
                match sites[i].verified {
                    Some(b) => json::Json::Bool(b),
                    None => json::Json::Null,
                },
            ),
        ),
{
    let records = site_records(sites);
    let record = records[i];
    assert(record == site_record(sites[i]));
    assert(record[0].0 == "domain"@ && record[1].0 == "timezone"@);
    assert(record[2].0 == "is_main_site"@ && record[3].0 == "public"@);
    assert(record[4].0 == "verified"@);
    records
}

/// People see aggregate metrics as a table of names and values, with a row for each metric in the
/// order of the response; programs get the metrics under `results`.
pub proof fn law_metrics_are_shown_row_by_row(response: AggregateResponse, i: int) -> (shown: Seq<
    Seq<Seq<char>>,
>)
    requires
        0 <= i < json::members(response.results).len(),
    ensures
        told_aggregate(response, OutputFormat::Human) == Ok::<Seq<char>, Seq<char>>(
            output::table(shown),
        ),
        shown.len() == json::members(response.results).len() + 1,
        shown[0] == seq!["metric"@, "value"@],
        shown[i + 1] == seq![
            json::members(response.results)[i].0,
            json::shown(json::members(response.results)[i].1),
        ],
        told_aggregate(response, OutputFormat::Json) == json::pretty_record(
            seq![("results"@, json::object(json::members(response.results)))],
        ),
{
    metrics_table(json::members(response.results))
}

/// One more member adds one assignment to a line of metrics, of its name and its value, unless its
/// name is to be left out: then it adds nothing.
pub proof fn law_metrics_line_grows_by_members(
    list: Seq<json::Member>,
    name: Seq<char>,
    value: json::Json,
    skip: Seq<Seq<char>>,
)
    ensures
        metrics_line(Seq::empty(), skip) == Seq::<char>::empty(),
        skip.contains(name) ==> metrics_line(list.push((name, value)), skip) == metrics_line(
            list,
            skip,
        ),
        !skip.contains(name) && (forall|i: int|
            0 <= i < list.len() ==> skip.contains((#[trigger] list[i]).0)) ==> metrics_line(
            list.push((name, value)),
            skip,
        ) == name + "="@ + json::shown(value),
        !skip.contains(name) && (exists|i: int|
            0 <= i < list.len() && !skip.contains((#[trigger] list[i]).0)) ==> metrics_line(
            list.push((name, value)),
            skip,
        ) == metrics_line(list, skip) + ", "@ + (name + "="@ + json::shown(value)),
{
    let more = list.push((name, value));
    assert(more.drop_last() =~= list);
    lemma_assignments_left(list, skip);
    let before = assignments(list, skip);
    let part = name + "="@ + json::shown(value);
    if !skip.contains(name) {
        assert(assignments(more, skip) == before.push(part));
        assert(before.push(part).drop_last() =~= before);
        if before.len() == 0 {
            assert(before.push(part) =~= seq![part]);
        }
        text::law_joining_appends_parts(before, part, ", "@);
    }
}

/// A line of metrics is empty of assignments if and only if all members are to be left out.
proof fn lemma_assignments_left(list: Seq<json::Member>, skip: Seq<Seq<char>>)
    ensures
        assignments(list, skip).len() == 0 <==> forall|i: int|
            0 <= i < list.len() ==> skip.contains((#[trigger] list[i]).0),
    decreases list.len(),
{
    if list.len() > 0 {
        let init = list.drop_last();
        lemma_assignments_left(init, skip);
        assert(list.last() == list[list.len() - 1]);
        assert forall|i: int| 0 <= i < init.len() implies #[trigger] init[i] == list[i] by {}
        if assignments(list, skip).len() == 0 {
            assert forall|i: int| 0 <= i < list.len() implies skip.contains(
                (#[trigger] list[i]).0,
            ) by {
                if i < init.len() {
                    assert(init[i] == list[i]);
                }
            }
        }
    }
}

/// What a result is about is told by the first of some names that it has a member of, and is unknown
/// if it has none of them.
pub proof fn law_first_name_decides(map: Map<Seq<char>, json::Json>, names: Seq<Seq<char>>, k: int)
    requires
        0 <= k <= names.len(),
        forall|i: int| 0 <= i < k ==> !map.contains_key(#[trigger] names[i]),
        k < names.len() ==> map.contains_key(names[k]),
    ensures
        first_named(map, names) == if k < names.len() {
            Some(map[names[k]])
        } else {
            None
        },
    decreases k,
{
    if k > 0 {
        assert(!map.contains_key(names[0]));
        let rest = names.drop_first();
        assert forall|i: int| 0 <= i < k - 1 implies !map.contains_key(#[trigger] rest[i]) by {
            assert(rest[i] == names[i + 1]);
        }
        law_first_name_decides(map, rest, k - 1);
    }
}

/// A point of a series is told by its time, which it has under `datetime`, `date` or `time`, in this
/// order, and by its other members on one line.
pub proof fn law_point_is_told_by_its_time(list: Seq<json::Member>)
    ensures
        ({
            let cells = result_cells(list, time_names());
            let map = json::by_name(list);
            &&& cells.len() == 2
            &&& cells[0] == (if map.contains_key("datetime"@) {
                json::shown(map["datetime"@])
            } else if map.contains_key("date"@) {
                json::shown(map["date"@])
            } else if map.contains_key("time"@) {
                json::shown(map["time"@])
            } else {
                "n/a"@
            })
            &&& cells[1] == metrics_line(list, seq!["datetime"@, "date"@, "time"@])
        }),
{
    let map = json::by_name(list);
    let names = time_names();
    assert(names[0] == "datetime"@ && names[1] == "date"@ && names[2] == "time"@);
    let k: int = if map.contains_key("datetime"@) {
        0
    } else if map.contains_key("date"@) {
        1
    } else if map.contains_key("time"@) {
        2
    } else {
        3
    };
    law_first_name_decides(map, names, k);
}

/// A segment of a breakdown is told by its value or, if it has none, by its name, and by its other
/// members on one line.
pub proof fn law_segment_is_told_by_its_value(list: Seq<json::Member>)
    ensures
        ({
            let cells = result_cells(list, segment_names());
            let map = json::by_name(list);
            &&& cells.len() == 2
            &&& cells[0] == (if map.contains_key("value"@) {
                json::shown(map["value"@])
            } else if map.contains_key("name"@) {
                json::shown(map["name"@])
            } else {
                "n/a"@
            })
            &&& cells[1] == metrics_line(list, seq!["value"@, "name"@])
        }),
{
    let map = json::by_name(list);
    let names = segment_names();
    assert(names[0] == "value"@ && names[1] == "name"@);
    let k: int = if map.contains_key("value"@) {
        0
    } else if map.contains_key("name"@) {
        1
    } else {
        2
    };
    law_first_name_decides(map, names, k);
}

/// The table of results has a row for each result, in the order of the response, below its headings.
pub proof fn law_results_are_shown_row_by_row(
    heading: Seq<char>,
    results: Seq<serde_json::Map<String, Value>>,
    names: Seq<Seq<char>>,
    i: int,
)
    requires
        0 <= i < results.len(),
    ensures
        ({
            let shown = results_table(heading, results, names);
            &&& shown.len() == results.len() + 1
            &&& shown[0] == seq![heading, "metrics"@]
            &&& shown[i + 1] == result_cells(json::members(results[i]), names)
        }),
{
}

/// People see a series as a table of times and metrics, or a note that there is no data; the totals
/// follow on a line of their own, if there are any.
pub proof fn law_series_is_shown_with_its_totals(response: TimeseriesResponse)
    ensures
        ({
            let above = if response.results@.len() == 0 {
                "No timeseries data."@
            } else {
                output::table(results_table("timestamp"@, response.results@, time_names()))
            };
            let totals = json::members(response.totals);
            told_timeseries(response, OutputFormat::Human) == Ok::<Seq<char>, Seq<char>>(
                if totals.len() == 0 {
                    above
                } else {
                    above + "\nTotals: "@ + metrics_line(totals, Seq::empty())
                },
            )
        }),
{
}

/// People see a breakdown as a table of segments and metrics, or a note that there is no data. The
/// page comes first, if it is known, with the number of pages if that is known, and the totals come
/// last, if there are any.
pub proof fn law_breakdown_is_shown_with_page_and_totals(response: BreakdownResponse)
    ensures
        ({
            let page = match (response.page, response.total_pages) {
                (Some(n), Some(all)) => "Page "@ + text::decimal(n as nat) + "/"@ + text::decimal(
                    all as nat,
                ) + "\n"@,
                (Some(n), None) => "Page "@ + text::decimal(n as nat) + "\n"@,
                (None, _) => Seq::empty(),
            };
            let above = page + if response.results@.len() == 0 {
                "No breakdown data."@
            } else {
                output::table(results_table("segment"@, response.results@, segment_names()))
            };
            told_breakdown(response, OutputFormat::Human) == Ok::<Seq<char>, Seq<char>>(
                match response.totals {
                    Some(totals) if json::members(totals).len() > 0 => above + "\nTotals: "@
                        + metrics_line(json::members(totals), Seq::empty()),
                    _ => above,
                },
            )
        }),
{
}

/// People see the visitors at this moment on a line of their own, and every other figure that is
/// known on a line of its own.
pub proof fn law_present_visitors_are_shown_line_by_line(response: RealtimeVisitorsResponse)
    ensures
        ({
            let visitors = "Visitors: "@ + text::decimal(response.visitors as nat);
            let views = match response.pageviews {
                Some(n) => "\nPageviews: "@ + text::decimal(n as nat),
                None => Seq::empty(),
            };
            let rate = match response.bounce_rate {
                Some(reading) => "\nBounce rate: "@ + reading.shown@ + "%"@,
                None => Seq::empty(),
            };
            let duration = match response.visit_duration {
                Some(reading) => "\nVisit duration: "@ + reading.shown@ + "s"@,
                None => Seq::empty(),
            };
            told_realtime(response, OutputFormat::Human) == Ok::<Seq<char>, Seq<char>>(
                visitors + views + rate + duration,
            )
        }),
{
}

/// Programs get the results of a series in their order, and its totals.
pub proof fn law_series_is_told_member_by_member(response: TimeseriesResponse, i: int) -> (record:
    Seq<json::Member>)
    requires
        0 <= i < response.results@.len(),
    ensures
        told_timeseries(response, OutputFormat::Json) == json::pretty_record(record),
        record.len() == 2,
        record[0].0 == "results"@,
        record[0].1 matches json::Json::Array(told) && told.len() == response.results@.len()
            && told[i] == json::object(json::members(response.results@[i])),
        record[1] == ("totals"@, json::object(json::members(response.totals))),
{
    timeseries_record(response)
}

/// Programs get the results of a breakdown in their order, its totals, and its page and the number of
/// pages, with null for what is not known.
pub proof fn law_breakdown_is_told_member_by_member(response: BreakdownResponse, i: int) -> (record:
    Seq<json::Member>)
    requires
        0 <= i < response.results@.len(),
    ensures
        told_breakdown(response, OutputFormat::Json) == json::pretty_record(record),
        record.len() == 4,
        record[0].0 == "results"@,
        record[0].1 matches json::Json::Array(told) && told.len() == response.results@.len()
            && told[i] == json::object(json::members(response.results@[i])),
        record[1] == (
            "totals"@,
            match response.totals {
                Some(totals) => json::object(json::members(totals)),
                None => json::Json::Null,
            },
        ),
        record[2] == (
            "page"@,
            match response.page {
                Some(n) => json::Json::Number(text::decimal(n as nat)),
                None => json::Json::Null,
            },
        ),
        record[3] == (
            "total_pages"@,
            match response.total_pages {
                Some(n) => json::Json::Number(text::decimal(n as nat)),
                None => json::Json::Null,
            },
        ),
{
    breakdown_record(response)
}

/// Programs get the visitors at this moment, and every other figure as the API sent it, or null.
pub proof fn law_present_visitors_are_told_member_by_member(
    response: RealtimeVisitorsResponse,
) -> (record: Seq<json::Member>)
    ensures
        told_realtime(response, OutputFormat::Json) == json::pretty_record(record),
        record.len() == 4,
        record[0] == (
            "visitors"@,
            json::Json::Number(text::decimal(response.visitors as nat)),
        ),
        record[1] == (
            "pageviews"@,
            match response.pageviews {
                Some(n) => json::Json::Number(text::decimal(n as nat)),
                None => json::Json::Null,
            },
        ),
        record[2] == (
            "bounce_rate"@,
            match response.bounce_rate {
                Some(reading) => json::content(reading.number),
                None => json::Json::Null,
            },
        ),
        record[3] == (
            "visit_duration"@,
            match response.visit_duration {
                Some(reading) => json::content(reading.number),
                None => json::Json::Null,
            },
        ),
{
    realtime_record(response)
}

} // verus!
