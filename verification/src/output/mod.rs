//! What commands print.

use crate::json;
use crate::json::{pretty_text, single, truth_text, Datum};
use crate::queue::JobResponse;
use crate::text;
use crate::text::decimal_text;
use crate::Error;
use serde_json::Value;
use vstd::prelude::*;
use vstd::string::*;

pub mod lists;
pub mod results;
pub mod status;

pub use lists::{
    account_row, export_row, print_account_export, queue_row, render_account_export,
    render_account_list, render_queue_snapshot,
};
pub use results::{
    breakdown_row, format_metrics, render_aggregate, render_breakdown, render_realtime,
    render_site_summary, render_sites, render_timeseries, site_row, timeseries_row,
};
pub use status::{event_template, render_event_template, render_status};

verus! {

/// How results are printed.
#[derive(Debug, Clone, Copy, PartialEq, Eq, Structural)]
pub enum OutputFormat {
    Human,
    Json,
}

impl Default for OutputFormat {
    fn default() -> (format: OutputFormat)
        ensures
            format == OutputFormat::Human,
    {
        OutputFormat::Human
    }
}

/// What a command prints.
#[derive(Debug)]
pub enum Output {
    /// The text, followed by a line feed.
    Text(String),
    /// The title, a colon and a space, and the response in debug notation.
    Response { title: String, response: JobResponse },
}

impl Output {
    /// Whether this is a given text.
    pub open spec fn says(self, text: Seq<char>) -> bool {
        self matches Output::Text(t) && t@ == text
    }

    /// Whether what is printed is one JSON document.
    pub open spec fn is_json(self) -> bool {
        self matches Output::Text(t) && is_notation(t@)
    }
}

/// Whether a text is the indented notation of a JSON document: of a value, of a record, or of a list
/// of records.
pub open spec fn is_notation(text: Seq<char>) -> bool {
    ||| exists|value: json::Json| #[trigger]
        json::pretty(value) == Ok::<Seq<char>, Seq<char>>(text)
    ||| exists|record: Seq<json::Member>| #[trigger]
        json::pretty_record(record) == Ok::<Seq<char>, Seq<char>>(text)
    ||| exists|records: Seq<Seq<json::Member>>| #[trigger]
        json::pretty_records(records) == Ok::<Seq<char>, Seq<char>>(text)
}

/// Whether an outcome prints a text, or is the error that there is none.
pub open spec fn yields(
    outcome: Result<Output, Error>,
    text: Result<Seq<char>, Seq<char>>,
) -> bool {
    match text {
        Ok(text) => outcome matches Ok(output) && output.says(text),
        Err(e) => outcome matches Err(Error::Serialization(m)) && m@ == e,
    }
}

pub(crate) fn yielded(text: Result<String, String>) -> (outcome: Result<Output, Error>)
    ensures
        yields(outcome, text::text_outcome(text)),
{
    match text {
        Ok(text) => Ok(Output::Text(text)),
        Err(e) => Err(Error::Serialization(e)),
    }
}

/// Whether an outcome is the indented notation of a document, or the error that it has none.
pub open spec fn prints(outcome: Result<Output, Error>, document: json::Json) -> bool {
    yields(outcome, json::pretty(document))
}

/// Prints a document.
pub(crate) fn print(value: &Value) -> (outcome: Result<Output, Error>)
    ensures
        prints(outcome, json::content(*value)),
{
    yielded(pretty_text(value))
}

/// What is printed of something that is told: a sentence for people, a document for programs.
pub open spec fn told(format: OutputFormat, sentence: Seq<char>, document: json::Json) -> Result<
    Seq<char>,
    Seq<char>,
> {
    match format {
        OutputFormat::Human => Ok(sentence),
        OutputFormat::Json => json::pretty(document),
    }
}

/// Whether an outcome tells something: a sentence for people, a document for programs.
pub open spec fn tells(
    outcome: Result<Output, Error>,
    format: OutputFormat,
    sentence: Seq<char>,
    document: json::Json,
) -> bool {
    yields(outcome, told(format, sentence, document))
}

/// Tells something: a sentence for people, a document for programs.
pub(crate) fn tell(format: OutputFormat, sentence: String, document: &Value) -> (outcome: Result<
    Output,
    Error,
>)
    ensures
        tells(outcome, format, sentence@, json::content(*document)),
{
    match format {
        OutputFormat::Human => Ok(Output::Text(sentence)),
        OutputFormat::Json => print(document),
    }
}

/// What is told to programs, or printed as a document, is JSON.
pub proof fn law_documents_are_json(
    outcome: Result<Output, Error>,
    sentence: Seq<char>,
    document: json::Json,
)
    requires
        prints(outcome, document) || tells(outcome, OutputFormat::Json, sentence, document),
    ensures
        outcome matches Ok(output) ==> output.is_json(),
{
}

/// The table that `tabled` draws of rows of cells, the first of which holds the headings.
pub uninterp spec fn table(rows: Seq<Seq<Seq<char>>>) -> Seq<char>;

/// The texts of rows of cells.
pub open spec fn row_views(rows: Seq<Vec<String>>) -> Seq<Seq<Seq<char>>> {
    rows.map_values(|row: Vec<String>| text::views(row@))
}

/// Calls `tabled::builder::Builder::build` and displays the table. What it looks like is named, not
/// described.
#[verifier::external_body]
pub(crate) fn table_text(rows: Vec<Vec<String>>) -> (drawing: String)
    ensures
        drawing@ == table(row_views(rows@)),
{
    tabled::builder::Builder::from(rows).build().to_string()
}

pub(crate) fn push_cell(row: &mut Vec<String>, cell: String)
    ensures
        text::views(final(row)@) == text::views(old(row)@).push(cell@),
{
    row.push(cell);
    assert(text::views(row@) =~= text::views(old(row)@).push(cell@));
}

pub(crate) fn push_row(rows: &mut Vec<Vec<String>>, row: Vec<String>)
    ensures
        row_views(final(rows)@) == row_views(old(rows)@).push(text::views(row@)),
{
    rows.push(row);
    assert(row_views(rows@) =~= row_views(old(rows)@).push(text::views(row@)));
}

/// Rows of cells that begin with a row of headings.
pub(crate) fn headed(first: &str, second: &str) -> (rows: Vec<Vec<String>>)
    ensures
        row_views(rows@) == seq![seq![first@, second@]],
{
    let mut row: Vec<String> = Vec::new();
    push_cell(&mut row, first.to_owned());
    push_cell(&mut row, second.to_owned());
    assert(text::views(row@) =~= seq![first@, second@]);
    let mut rows: Vec<Vec<String>> = Vec::new();
    push_row(&mut rows, row);
    assert(row_views(rows@) =~= seq![seq![first@, second@]]);
    rows
}

/// A text, or another one in its absence.
pub open spec fn text_or(value: Option<Seq<char>>, absent: Seq<char>) -> Seq<char> {
    match value {
        Some(t) => t,
        None => absent,
    }
}

pub(crate) fn or_text(value: &Option<String>, absent: &str) -> (shown: String)
    ensures
        shown@ == text_or(value.deep_view(), absent@),
{
    match value {
        Some(t) => t.clone(),
        None => absent.to_owned(),
    }
}

/// A truth value, or a note that it is unknown.
pub open spec fn truth_or(value: Option<bool>) -> Seq<char> {
    match value {
        Some(b) => json::truth(b),
        None => "n/a"@,
    }
}

pub(crate) fn or_truth(value: Option<bool>) -> (shown: String)
    ensures
        shown@ == truth_or(value),
{
    match value {
        Some(b) => truth_text(b),
        None => "n/a".to_owned(),
    }
}

/// A number, or a dash in its absence.
pub open spec fn number_or_dash(value: Option<u32>) -> Seq<char> {
    match value {
        Some(n) => text::decimal(n as nat),
        None => "-"@,
    }
}

pub(crate) fn or_dash(value: Option<u32>) -> (shown: String)
    ensures
        shown@ == number_or_dash(value),
{
    match value {
        Some(n) => decimal_text(n as u64),
        None => "-".to_owned(),
    }
}

/// The answer to a question.
pub open spec fn yes_or_no(b: bool) -> Seq<char> {
    if b {
        "yes"@
    } else {
        "no"@
    }
}

pub(crate) fn answer(b: bool) -> (shown: String)
    ensures
        shown@ == yes_or_no(b),
{
    if b {
        "yes".to_owned()
    } else {
        "no".to_owned()
    }
}

/// A number, or nothing.
pub open spec fn number_json(n: Option<u32>) -> json::Json {
    match n {
        Some(n) => json::Json::Number(text::decimal(n as nat)),
        None => json::Json::Null,
    }
}

pub(crate) fn number_value(n: Option<u32>) -> (value: Value)
    ensures
        json::content(value) == number_json(n),
{
    match n {
        Some(n) => single(Datum::Number(n as u64)),
        None => single(Datum::Null),
    }
}

/// A text, or nothing.
pub open spec fn text_json(t: Option<Seq<char>>) -> json::Json {
    match t {
        Some(t) => json::Json::Text(t),
        None => json::Json::Null,
    }
}

/// A truth value, or nothing.
pub open spec fn truth_json(b: Option<bool>) -> json::Json {
    match b {
        Some(b) => json::Json::Bool(b),
        None => json::Json::Null,
    }
}

pub(crate) fn truth_value(b: Option<bool>) -> (value: Value)
    ensures
        json::content(value) == truth_json(b),
{
    match b {
        Some(b) => single(Datum::Bool(b)),
        None => single(Datum::Null),
    }
}

/// A large number, or nothing.
pub open spec fn count_json(n: Option<u64>) -> json::Json {
    match n {
        Some(n) => json::Json::Number(text::decimal(n as nat)),
        None => json::Json::Null,
    }
}

pub(crate) fn count_value(n: Option<u64>) -> (value: Value)
    ensures
        json::content(value) == count_json(n),
{
    match n {
        Some(n) => single(Datum::Number(n)),
        None => single(Datum::Null),
    }
}

pub(crate) fn text_value(t: &Option<String>) -> (value: Value)
    ensures
        json::content(value) == text_json(t.deep_view()),
{
    match t {
        Some(t) => single(Datum::Text(t.clone())),
        None => single(Datum::Null),
    }
}

/// Whether a row of cells has a given cell under a given heading.
pub open spec fn under(
    headings: Seq<Seq<char>>,
    cells: Seq<Seq<char>>,
    heading: Seq<char>,
    cell: Seq<char>,
) -> bool {
    &&& headings.len() == cells.len()
    &&& exists|c: int|
        0 <= c < headings.len() && #[trigger] headings[c] == heading && cells[c] == cell
}

/// Something that is told is the sentence for people, and the notation of the document for
/// programs; the only failure is that the document has no notation.
pub proof fn law_telling_depends_on_the_format(
    outcome: Result<Output, Error>,
    format: OutputFormat,
    sentence: Seq<char>,
    document: json::Json,
)
    requires
        tells(outcome, format, sentence, document),
    ensures
        format == OutputFormat::Human ==> (outcome matches Ok(Output::Text(t)) && t@ == sentence),
        format == OutputFormat::Json ==> match outcome {
            Ok(output) => output matches Output::Text(t) && json::pretty(document) == Ok::<
                Seq<char>,
                Seq<char>,
            >(t@),
            Err(e) => e matches Error::Serialization(m) && json::pretty(document) == Err::<
                Seq<char>,
                Seq<char>,
            >(m@),
        },
{
}

/// The texts of rows of cells are those of each cell, in their order.
pub proof fn law_rows_keep_cells(rows: Seq<Vec<String>>, i: int, c: int)
    requires
        0 <= i < rows.len(),
        0 <= c < rows[i]@.len(),
    ensures
        row_views(rows).len() == rows.len(),
        row_views(rows)[i].len() == rows[i]@.len(),
        row_views(rows)[i][c] == rows[i]@[c]@,
{
}

} // verus!
