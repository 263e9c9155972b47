use plausible_cli::client::{
    AggregateResponse, BreakdownResponse, Reading, RealtimeVisitorsResponse, SiteSummary,
    TimeseriesResponse,
};
use plausible_cli::config::accounts::{AccountExport, AccountProfile, AccountSummary};
use plausible_cli::json::{apply_domain_override, format_value};
use plausible_cli::nonzero::NonZeroU32;
use plausible_cli::output::{
    account_row, breakdown_row, event_template, export_row, format_metrics, print_account_export,
    render_aggregate, render_breakdown, render_realtime, render_site_summary, render_sites, render_timeseries,
    site_row, timeseries_row, Output, OutputFormat,
};
use plausible_cli::text::{
    contains_char, contains_double, decimal_text, is_blank, join, precedes, split_lines, trim,
};

type Object = serde_json::Map<String, serde_json::Value>;

fn value(json: &str) -> serde_json::Value {
    serde_json::from_str(json).expect("json")
}

fn object(json: &str) -> Object {
    match value(json) {
        serde_json::Value::Object(object) => object,
        other => panic!("no object: {}", other),
    }
}

fn text(outcome: Result<Output, plausible_cli::Error>) -> String {
    match outcome {
        Ok(Output::Text(text)) => text,
        other => panic!("unexpected outcome {:?}", other),
    }
}

fn site() -> SiteSummary {
    SiteSummary {
        domain: "example.com".into(),
        timezone: Some("UTC".into()),
        is_main_site: Some(true),
        public: Some(false),
        verified: None,
    }
}

#[test]
fn values_are_shown_without_quotes() {
    assert_eq!(format_value(&value("null")), "null");
    assert_eq!(format_value(&value("true")), "true");
    assert_eq!(format_value(&value("false")), "false");
    assert_eq!(format_value(&value("12.50")), "12.5");
    assert_eq!(format_value(&value("-3")), "-3");
    assert_eq!(format_value(&value("\"a b\"")), "a b");
    assert_eq!(format_value(&value("[1, {\"b\": 2}]")), "[1,{\"b\":2}]");
    assert_eq!(format_value(&value("{\"b\": null}")), "{\"b\":null}");
}

#[test]
fn only_objects_get_a_domain() {
    let domain = Some(String::from("d"));
    let mut array = value("[1]");
    apply_domain_override(&mut array, &domain);
    assert_eq!(array.to_string(), "[1]");
    let mut object = value("{}");
    apply_domain_override(&mut object, &domain);
    assert_eq!(object.to_string(), "{\"domain\":\"d\"}");
    apply_domain_override(&mut object, &None);
    assert_eq!(object.to_string(), "{\"domain\":\"d\"}");
}

#[test]
fn metrics_are_listed_in_alphabetical_order() {
    let entry = object(r#"{"visitors": 3, "date": "2024-01-01", "bounce": null}"#);
    assert_eq!(format_metrics(&entry, &vec![]), "bounce=null, date=2024-01-01, visitors=3");
    assert_eq!(format_metrics(&entry, &vec!["date".into()]), "bounce=null, visitors=3");
    assert_eq!(format_metrics(&object("{}"), &vec![]), "");
}

#[test]
fn rows_name_what_they_are_about() {
    assert_eq!(
        timeseries_row(&object(r#"{"date": "d", "datetime": "t", "visitors": 1}"#)),
        vec!["t", "visitors=1"]
    );
    assert_eq!(timeseries_row(&object(r#"{"time": 5, "visitors": 1}"#)), vec!["5", "visitors=1"]);
    assert_eq!(timeseries_row(&object(r#"{"visitors": 1}"#)), vec!["n/a", "visitors=1"]);
    assert_eq!(breakdown_row(&object(r#"{"name": "n", "v": 1}"#)), vec!["n", "v=1"]);
    assert_eq!(breakdown_row(&object(r#"{"name": "n", "value": "x"}"#)), vec!["x", ""]);
    assert_eq!(site_row(&site()), vec!["example.com", "UTC", "false", "n/a"]);
}

#[test]
fn account_rows_mark_the_default() {
    let summary = AccountSummary {
        alias: "a".into(),
        profile: AccountProfile { email: Some("e".into()), ..AccountProfile::default() },
        is_default: false,
        daily_budget: NonZeroU32::new(5),
    };
    assert_eq!(account_row(&summary), vec!["a", "n/a", "e", "no", "5"]);
    let export = AccountExport {
        alias: "a".into(),
        is_default: true,
        label: None,
        email: None,
        description: Some("d".into()),
        daily_budget: None,
    };
    assert_eq!(export_row(&export), vec!["a", "n/a", "n/a", "yes", "d", "-"]);
}

#[test]
fn sites_are_printed() {
    let table = "+-------------+----------+--------+----------+\n\
                 | domain      | timezone | public | verified |\n\
                 +-------------+----------+--------+----------+\n\
                 | example.com | UTC      | false  | n/a      |\n\
                 +-------------+----------+--------+----------+";
    assert_eq!(text(render_sites(&vec![site()], OutputFormat::Human)), table);
    assert_eq!(text(render_site_summary(&site(), OutputFormat::Human)), table);
    assert_eq!(
        text(render_sites(&vec![], OutputFormat::Human)),
        "+--------+----------+--------+----------+\n\
         | domain | timezone | public | verified |\n\
         +--------+----------+--------+----------+"
    );
    assert_eq!(
        text(render_site_summary(&site(), OutputFormat::Json)),
        r#"{
  "domain": "example.com",
  "timezone": "UTC",
  "is_main_site": true,
  "public": false,
  "verified": null
}"#
    );
    assert_eq!(
        text(render_sites(&vec![site(), site()], OutputFormat::Json)),
        r#"[
  {
    "domain": "example.com",
    "timezone": "UTC",
    "is_main_site": true,
    "public": false,
    "verified": null
  },
  {
    "domain": "example.com",
    "timezone": "UTC",
    "is_main_site": true,
    "public": false,
    "verified": null
  }
]"#
    );
    assert_eq!(text(render_sites(&vec![], OutputFormat::Json)), "[]");
}

#[test]
fn aggregate_metrics_are_printed() {
    let response = || AggregateResponse { results: object(r#"{"visitors": 120, "rate": "x"}"#) };
    assert_eq!(
        text(render_aggregate(&response(), OutputFormat::Human)),
        "+----------+-------+\n\
         | metric   | value |\n\
         +----------+-------+\n\
         | rate     | x     |\n\
         +----------+-------+\n\
         | visitors | 120   |\n\
         +----------+-------+"
    );
    assert_eq!(
        text(render_aggregate(&response(), OutputFormat::Json)),
        "{\n  \"results\": {\n    \"rate\": \"x\",\n    \"visitors\": 120\n  }\n}"
    );
}

#[test]
fn timeseries_are_printed() {
    let empty = TimeseriesResponse { results: vec![], totals: Object::new() };
    assert_eq!(text(render_timeseries(&empty, OutputFormat::Human)), "No timeseries data.");
    let response = TimeseriesResponse {
        results: vec![object(r#"{"date": "2024-01-01", "visitors": 3}"#)],
        totals: object(r#"{"visitors": 3}"#),
    };
    assert_eq!(
        text(render_timeseries(&response, OutputFormat::Human)),
        "+------------+------------+\n\
         | timestamp  | metrics    |\n\
         +------------+------------+\n\
         | 2024-01-01 | visitors=3 |\n\
         +------------+------------+\n\
         Totals: visitors=3"
    );
    assert_eq!(
        parsed(render_timeseries(&response, OutputFormat::Json)),
        r#"{"results":[{"date":"2024-01-01","visitors":3}],"totals":{"visitors":3}}"#
    );
}

#[test]
fn breakdowns_are_printed() {
    let response = |page: Option<u64>, total_pages: Option<u64>| BreakdownResponse {
        results: vec![],
        totals: Some(object(r#"{"visitors": 3}"#)),
        page,
        total_pages,
    };
    assert_eq!(
        text(render_breakdown(&response(Some(2), Some(7)), OutputFormat::Human)),
        "Page 2/7\nNo breakdown data.\nTotals: visitors=3"
    );
    assert_eq!(
        text(render_breakdown(&response(Some(2), None), OutputFormat::Human)),
        "Page 2\nNo breakdown data.\nTotals: visitors=3"
    );
    let bare = BreakdownResponse {
        results: vec![object(r#"{"value": "/", "visitors": 1}"#)],
        totals: Some(Object::new()),
        page: None,
        total_pages: Some(7),
    };
    assert_eq!(
        text(render_breakdown(&bare, OutputFormat::Human)),
        "+---------+------------+\n\
         | segment | metrics    |\n\
         +---------+------------+\n\
         | /       | visitors=1 |\n\
         +---------+------------+"
    );
    assert_eq!(
        parsed(render_breakdown(&bare, OutputFormat::Json)),
        r#"{"page":null,"results":[{"value":"/","visitors":1}],"total_pages":7,"totals":{}}"#
    );
    let unknown = BreakdownResponse { totals: None, ..response(Some(2), None) };
    assert_eq!(
        text(render_breakdown(&unknown, OutputFormat::Json)),
        "{\n  \"results\": [],\n  \"totals\": null,\n  \"page\": 2,\n  \"total_pages\": null\n}"
    );
}

#[test]
fn realtime_visitors_are_printed() {
    let reading = |number: f64, shown: &str| {
        Some(Reading { number: serde_json::Value::from(number), shown: shown.into() })
    };
    let response = RealtimeVisitorsResponse {
        visitors: 12,
        pageviews: Some(30),
        bounce_rate: reading(0.5, "50.00"),
        visit_duration: reading(3.25, "3.25"),
    };
    assert_eq!(
        text(render_realtime(&response, OutputFormat::Human)),
        "Visitors: 12\nPageviews: 30\nBounce rate: 50.00%\nVisit duration: 3.25s"
    );
    assert_eq!(
        text(render_realtime(&response, OutputFormat::Json)),
        r#"{
  "visitors": 12,
  "pageviews": 30,
  "bounce_rate": 0.5,
  "visit_duration": 3.25
}"#
    );
    let bare = RealtimeVisitorsResponse {
        visitors: 0,
        pageviews: None,
        bounce_rate: None,
        visit_duration: None,
    };
    assert_eq!(text(render_realtime(&bare, OutputFormat::Human)), "Visitors: 0");
}

/// What is printed, read back and written on one line.
fn parsed(outcome: Result<Output, plausible_cli::Error>) -> String {
    let value: serde_json::Value = serde_json::from_str(&text(outcome)).expect("JSON");
    value.to_string()
}

#[test]
fn lists_of_records_are_indented_like_any_other_list() {
    let quirky = |name: &str| AccountExport {
        alias: name.into(),
        is_default: false,
        label: Some("two\nlines and a \"quote\"".into()),
        email: None,
        description: Some("{}[],".into()),
        daily_budget: Some(7),
    };
    let printed =
        text(print_account_export(&vec![quirky("a"), quirky("b")], OutputFormat::Json));
    let value: serde_json::Value = serde_json::from_str(&printed).expect("JSON");
    let sorted = serde_json::to_string_pretty(&value).expect("notation");
    let mut lines: Vec<&str> = printed.lines().map(|l| l.trim_end_matches(',')).collect();
    let mut expected: Vec<&str> = sorted.lines().map(|l| l.trim_end_matches(',')).collect();
    lines.sort();
    expected.sort();
    assert_eq!(lines, expected);
    assert!(printed.starts_with("[\n  {\n    \"alias\": \"a\",\n    \"is_default\": false,"));
}

#[test]
fn sample_event_is_an_object() {
    let sample = event_template();
    assert!(sample.is_object());
    assert_eq!(sample.get("name").and_then(|v| v.as_str()), Some("Signup"));
}

#[test]
fn texts_are_trimmed_and_split() {
    assert_eq!(trim("\u{a0} a b\u{2003}\n"), "a b");
    assert_eq!(trim(" \t"), "");
    assert!(is_blank("\u{3000}"));
    assert!(!is_blank("\u{200b}"));
    assert_eq!(split_lines("a\r\nb\n\nc\r"), vec!["a", "b", "", "c\r"]);
    assert_eq!(split_lines("a\n"), vec!["a"]);
    assert!(split_lines("").is_empty());
    assert_eq!(join(&vec!["a".into(), "b".into(), "c".into()], "; "), "a; b; c");
    assert_eq!(join(&vec![], "; "), "");
}

#[test]
fn texts_are_searched_and_ordered() {
    assert!(contains_char("a/b", '/'));
    assert!(!contains_char("ab", '/'));
    assert!(contains_double("a..b", '.'));
    assert!(!contains_double(".a.", '.'));
    assert!(precedes("a", "ab"));
    assert!(precedes("Z", "a"));
    assert!(!precedes("a", "a"));
    assert!(!precedes("b", "ab"));
    assert_eq!(decimal_text(0), "0");
    assert_eq!(decimal_text(18_446_744_073_709_551_615), "18446744073709551615");
}
