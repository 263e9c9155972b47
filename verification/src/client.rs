//! The Plausible API: which requests are made, with which parameters, and how responses are read.

use crate::json;
use crate::json::{object_of, push_member, push_text, single, Datum};
use crate::text;
use serde_json::Value;
use url::Url;
use vstd::prelude::*;
use vstd::string::*;

verus! {

/// The public Plausible instance.
pub const DEFAULT_BASE_URL: &'static str = "https://plausible.io/";

/// How the client introduces itself.
pub const USER_AGENT: &'static str = "plausible-cli/1.0.0";

/// Seconds after which a request is given up.
pub const DEFAULT_TIMEOUT_SECS: u64 = 15;

/// What `url::Url::parse` makes of a text: the normal form of the URL, or the message of an error.
pub uninterp spec fn url_parsed(url: Seq<char>) -> Result<Seq<char>, Seq<char>>;

/// Calls `url::Url::parse`. What it accepts and returns is named, not described.
#[verifier::external_body]
fn parse_url(url: &str) -> (outcome: Result<String, String>)
    ensures
        text::text_outcome(outcome) == url_parsed(url@),
{
    match Url::parse(url) {
        Ok(parsed) => Ok(parsed.as_str().to_string()),
        Err(e) => Err(e.to_string()),
    }
}

/// What `url::Url::path` returns for a URL, or the message of an error if the text is no URL.
pub uninterp spec fn url_path(url: Seq<char>) -> Result<Seq<char>, Seq<char>>;

/// Calls `url::Url::path`. What it returns is named, not described.
#[verifier::external_body]
fn path_of_url(url: &str) -> (outcome: Result<String, String>)
    ensures
        text::text_outcome(outcome) == url_path(url@),
{
    match Url::parse(url) {
        Ok(parsed) => Ok(parsed.path().to_string()),
        Err(e) => Err(e.to_string()),
    }
}

/// The URL that `url::Url::set_path` leaves of a URL and a new path, or the message of an error if
/// the text is no URL.
pub uninterp spec fn url_with_path(url: Seq<char>, path: Seq<char>) -> Result<Seq<char>, Seq<char>>;

/// Whether `url` can count, in 32 bits, up to the end of the path and up to the fragment of a URL in
/// normal form whose path gets one more slash. The slash takes three characters where it is the
/// only one after the scheme, and else one.
pub open spec fn countable(url: Seq<char>, path: Seq<char>) -> bool {
    let end = text::span(url, '?', '#');
    let growth: nat = if path.len() == 0 && end > 0 && url[end - 1] == ':' {
        3
    } else {
        1
    };
    &&& end + growth <= u32::MAX
    &&& text::has_char(url, '#') ==> text::span(url, '#', '#') + growth <= u32::MAX
}

/// Whether a URL in normal form is one of the web: its scheme is `http` or `https`.
pub open spec fn of_the_web(url: Seq<char>) -> bool {
    "http://"@.is_prefix_of(url) || "https://"@.is_prefix_of(url)
}

/// Whether a URL is another one with a slash appended to its path.
pub open spec fn slash_appended(url: Seq<char>, path: Seq<char>, longer: Seq<char>) -> bool {
    exists|before: Seq<char>, after: Seq<char>| #[trigger]
        parts(url, before, path, after) && parts(longer, before, path.push('/'), after)
}

/// Whether a URL consists of what comes before its path, the path, and what comes after it.
pub open spec fn parts(
    url: Seq<char>,
    before: Seq<char>,
    path: Seq<char>,
    after: Seq<char>,
) -> bool {
    url == before + path + after
}

/// Whether an outcome is a URL that, if it is one of the web, has the given path, which is that of
/// another URL with a slash appended, and is else equal to the normal form of that one.
pub open spec fn lengthened(
    url: Seq<char>,
    path: Seq<char>,
    outcome: Result<Seq<char>, Seq<char>>,
) -> bool {
    outcome matches Ok(longer) && (of_the_web(longer) ==> {
        &&& url_path(longer) == Ok::<Seq<char>, Seq<char>>(path)
        &&& url_parsed(url) matches Ok(normal)
        &&& slash_appended(normal, path.drop_last(), longer)
    })
}

/// Calls `url::Url::set_path` to append a slash to the path that a URL has. What it makes of the
/// path is named. Of a URL of the web it is also said that the path that is left is the longer one,
/// and that nothing else changes. Lengths that `url` cannot count are left out.
#[verifier::external_body]
fn set_url_path(url: &str, path: &str) -> (outcome: Result<String, String>)
    requires
        url_path(url@) matches Ok(own) && path@ == own.push('/'),
        url_parsed(url@) matches Ok(normal) && countable(normal, path@.drop_last()),
    ensures
        text::text_outcome(outcome) == url_with_path(url@, path@),
        lengthened(url@, path@, text::text_outcome(outcome)),
{
    match Url::parse(url) {
        Ok(mut parsed) => {
            parsed.set_path(path);
            Ok(parsed.as_str().to_string())
        }
        Err(e) => Err(e.to_string()),
    }
}

/// What `url::Url::join` makes of a base URL and a reference, or the message of an error.
pub uninterp spec fn url_joined(base: Seq<char>, fragment: Seq<char>) -> Result<
    Seq<char>,
    Seq<char>,
>;

/// Calls `url::Url::join`. What it makes of the reference is named, not described.
#[verifier::external_body]
fn join_url(base: &str, fragment: &str) -> (outcome: Result<String, String>)
    ensures
        text::text_outcome(outcome) == url_joined(base@, fragment@),
{
    match Url::parse(base).and_then(|parsed| parsed.join(fragment)) {
        Ok(joined) => Ok(joined.as_str().to_string()),
        Err(e) => Err(e.to_string()),
    }
}

/// How `reqwest::StatusCode` displays a status code.
pub uninterp spec fn status_line(status: u16) -> Seq<char>;

/// Calls `reqwest::StatusCode::from_u16` and displays its result. The wording is named, not
/// described.
#[verifier::external_body]
fn status_text(status: u16) -> (line: String)
    ensures
        line@ == status_line(status),
{
    match reqwest::StatusCode::from_u16(status) {
        Ok(code) => code.to_string(),
        Err(e) => e.to_string(),
    }
}

/// Errors of the API client.
#[derive(Debug)]
pub enum ClientError {
    InvalidBaseUrl(String),
    InvalidEndpoint(String),
    HttpClient(String),
    Http(String),
    Validation(String),
    Api { status: u16, message: String },
}

impl ClientError {
    /// The message shown to the user.
    pub open spec fn text(self) -> Seq<char> {
        match self {
            ClientError::InvalidBaseUrl(e) => "invalid base URL: "@ + e@,
            ClientError::InvalidEndpoint(e) => "invalid endpoint: "@ + e@,
            ClientError::HttpClient(e) => "HTTP client build error: "@ + e@,
            ClientError::Http(e) => e@,
            ClientError::Validation(e) => "request validation failed: "@ + e@,
            ClientError::Api { status, message } => "API request failed with status "@
                + status_line(status) + ": "@ + message@,
        }
    }

    /// Renders the message shown to the user.
    pub fn message(&self) -> (text: String)
        ensures
            text@ == self.text(),
    {
        match self {
            ClientError::InvalidBaseUrl(e) => "invalid base URL: ".to_owned().concat(e.as_str()),
            ClientError::InvalidEndpoint(e) => "invalid endpoint: ".to_owned().concat(e.as_str()),
            ClientError::HttpClient(e) => "HTTP client build error: ".to_owned().concat(e.as_str()),
            ClientError::Http(e) => e.clone(),
            ClientError::Validation(e) =>
                "request validation failed: ".to_owned().concat(e.as_str()),
            ClientError::Api { status, message } => "API request failed with status ".to_owned()
                .concat(status_text(*status).as_str()).concat(": ").concat(message.as_str()),
        }
    }
}

/// Query parameters for the stats aggregate endpoint.
#[derive(Debug, Clone)]
pub struct AggregateQuery {
    pub site_id: String,
    pub metrics: Vec<String>,
    pub period: Option<String>,
    pub date: Option<String>,
    pub filters: Vec<String>,
    pub properties: Vec<String>,
    pub compare: Option<String>,
    pub interval: Option<String>,
    pub sort: Option<String>,
    pub limit: Option<u32>,
    pub page: Option<u32>,
}

impl Default for AggregateQuery {
    fn default() -> (query: AggregateQuery)
        ensures
            query.site_id@.len() == 0,
            query.metrics@.len() == 0,
            query.period is None,
            query.date is None,
            query.filters@.len() == 0,
            query.properties@.len() == 0,
            query.compare is None,
            query.interval is None,
            query.sort is None,
            query.limit is None,
            query.page is None,
    {
        AggregateQuery {
            site_id: String::new(),
            metrics: Vec::new(),
            period: None,
            date: None,
            filters: Vec::new(),
            properties: Vec::new(),
            compare: None,
            interval: None,
            sort: None,
            limit: None,
            page: None,
        }
    }
}

/// Query parameters for the stats timeseries endpoint.
#[derive(Debug, Clone)]
pub struct TimeseriesQuery {
    pub site_id: String,
    pub metrics: Vec<String>,
    pub period: Option<String>,
    pub date: Option<String>,
    pub interval: Option<String>,
    pub filters: Vec<String>,
    pub properties: Vec<String>,
    pub compare: Option<String>,
    pub sort: Option<String>,
    pub limit: Option<u32>,
    pub page: Option<u32>,
}

/// Query parameters for the stats breakdown endpoint.
#[derive(Debug, Clone)]
pub struct BreakdownQuery {
    pub site_id: String,
    pub property: String,
    pub metrics: Vec<String>,
    pub period: Option<String>,
    pub date: Option<String>,
    pub filters: Vec<String>,
    pub properties: Vec<String>,
    pub compare: Option<String>,
    pub sort: Option<String>,
    pub limit: Option<u32>,
    pub page: Option<u32>,
    pub included: Option<String>,
}

/// A site to be created.
#[derive(Debug, Clone)]
pub struct CreateSiteRequest {
    pub domain: String,
    pub timezone: Option<String>,
    pub public: Option<bool>,
}

/// Changes to a site.
#[derive(Debug, Clone)]
pub struct UpdateSiteRequest {
    pub timezone: Option<String>,
    pub public: Option<bool>,
    pub main_site: Option<bool>,
}

/// How far back the statistics of a site are reset.
#[derive(Debug, Clone)]
pub struct ResetSiteStatsRequest {
    pub date: Option<String>,
}

/// Minimal representation of a Plausible site entry.
#[derive(Debug, Clone, PartialEq, Eq)]
pub struct SiteSummary {
    pub domain: String,
    pub timezone: Option<String>,
    pub is_main_site: Option<bool>,
    pub public: Option<bool>,
    pub verified: Option<bool>,
}

/// Response envelope for aggregate metrics.
#[derive(Debug)]
pub struct AggregateResponse {
    pub results: serde_json::Map<String, serde_json::Value>,
}

/// Response envelope for timeseries metrics.
#[derive(Debug)]
pub struct TimeseriesResponse {
    pub results: Vec<serde_json::Map<String, serde_json::Value>>,
    pub totals: serde_json::Map<String, serde_json::Value>,
}

/// Response envelope for breakdown metrics.
#[derive(Debug)]
pub struct BreakdownResponse {
    pub results: Vec<serde_json::Map<String, serde_json::Value>>,
    pub totals: Option<serde_json::Map<String, serde_json::Value>>,
    pub page: Option<u64>,
    pub total_pages: Option<u64>,
}

/// A measurement that is no whole number.
#[derive(Debug, Clone)]
pub struct Reading {
    /// The number, as the API sent it.
    pub number: Value,
    /// The number as it is shown, with two decimals.
    pub shown: String,
}

/// Visitors at this moment.
#[derive(Debug, Clone)]
pub struct RealtimeVisitorsResponse {
    pub visitors: u64,
    pub pageviews: Option<u64>,
    /// Bounce rate, shown in percent.
    pub bounce_rate: Option<Reading>,
    /// Visit duration, shown in seconds.
    pub visit_duration: Option<Reading>,
}

/// One query parameter: name and value.
pub type Param = (String, String);

/// The texts of a list of query parameters.
pub open spec fn param_views(params: Seq<Param>) -> Seq<(Seq<char>, Seq<char>)> {
    params.map_values(|p: Param| (p.0@, p.1@))
}

/// The parameter of an optional value, if there is one.
pub open spec fn optional(name: Seq<char>, value: Option<Seq<char>>) -> Seq<
    (Seq<char>, Seq<char>),
> {
    match value {
        Some(v) => seq![(name, v)],
        None => Seq::empty(),
    }
}

/// The parameter of an optional number, if there is one.
pub open spec fn numeric(name: Seq<char>, value: Option<u32>) -> Seq<(Seq<char>, Seq<char>)> {
    match value {
        Some(n) => seq![(name, text::decimal(n as nat))],
        None => Seq::empty(),
    }
}

/// The parameter of a list, unless it is empty. Its items are separated by semicolons.
pub open spec fn listed(name: Seq<char>, items: Seq<String>) -> Seq<(Seq<char>, Seq<char>)> {
    if items.len() == 0 {
        Seq::empty()
    } else {
        seq![(name, text::joined(text::views(items), ";"@))]
    }
}

/// The metrics parameter. Visitors are asked for if nothing else is.
pub open spec fn metrics_value(metrics: Seq<String>) -> Seq<char> {
    if metrics.len() == 0 {
        "visitors"@
    } else {
        text::joined(text::views(metrics), ","@)
    }
}

/// The query parameters of an aggregate query.
pub open spec fn aggregate_params(query: AggregateQuery) -> Seq<(Seq<char>, Seq<char>)> {
    seq![("site_id"@, query.site_id@), ("metrics"@, metrics_value(query.metrics@))] + optional(
        "period"@,
        query.period.deep_view(),
    ) + optional("date"@, query.date.deep_view()) + listed("filters"@, query.filters@) + listed(
        "properties"@,
        query.properties@,
    ) + optional("compare"@, query.compare.deep_view()) + optional(
        "interval"@,
        query.interval.deep_view(),
    ) + optional("sort"@, query.sort.deep_view()) + numeric("limit"@, query.limit) + numeric(
        "page"@,
        query.page,
    )
}

/// The query parameters of a timeseries query.
pub open spec fn timeseries_params(query: TimeseriesQuery) -> Seq<(Seq<char>, Seq<char>)> {
    seq![("site_id"@, query.site_id@), ("metrics"@, metrics_value(query.metrics@))] + optional(
        "period"@,
        query.period.deep_view(),
    ) + optional("date"@, query.date.deep_view()) + listed("filters"@, query.filters@) + listed(
        "properties"@,
        query.properties@,
    ) + optional("compare"@, query.compare.deep_view()) + optional(
        "interval"@,
        query.interval.deep_view(),
    ) + optional("sort"@, query.sort.deep_view()) + numeric("limit"@, query.limit) + numeric(
        "page"@,
        query.page,
    )
}

/// The query parameters of a breakdown query.
pub open spec fn breakdown_params(query: BreakdownQuery) -> Seq<(Seq<char>, Seq<char>)> {
    seq![
        ("site_id"@, query.site_id@),
        ("property"@, query.property@),
        ("metrics"@, metrics_value(query.metrics@)),
    ] + optional("period"@, query.period.deep_view()) + optional("date"@, query.date.deep_view())
        + listed("filters"@, query.filters@) + listed("properties"@, query.properties@) + optional(
        "compare"@,
        query.compare.deep_view(),
    ) + optional("sort"@, query.sort.deep_view()) + numeric("limit"@, query.limit) + numeric(
        "page"@,
        query.page,
    ) + optional("include"@, query.included.deep_view())
}

fn push_param(params: &mut Vec<Param>, name: &str, value: String)
    ensures
        param_views(final(params)@) == param_views(old(params)@) + seq![(name@, value@)],
{
    params.push((name.to_owned(), value));
    assert(param_views(params@) =~= param_views(old(params)@) + seq![(name@, value@)]);
}

fn push_optional(params: &mut Vec<Param>, name: &str, value: &Option<String>)
    ensures
        param_views(final(params)@) == param_views(old(params)@) + optional(
            name@,
            value.deep_view(),
        ),
{
    match value {
        Some(v) => push_param(params, name, v.clone()),
        None => {},
    }
    assert(param_views(params@) =~= param_views(old(params)@) + optional(name@, value.deep_view()));
}

fn push_numeric(params: &mut Vec<Param>, name: &str, value: Option<u32>)
    ensures
        param_views(final(params)@) == param_views(old(params)@) + numeric(name@, value),
{
    match value {
        Some(n) => push_param(params, name, text::decimal_text(n as u64)),
        None => {},
    }
    assert(param_views(params@) =~= param_views(old(params)@) + numeric(name@, value));
}

fn push_list(params: &mut Vec<Param>, name: &str, items: &Vec<String>)
    ensures
        param_views(final(params)@) == param_views(old(params)@) + listed(name@, items@),
{
    if items.len() > 0 {
        push_param(params, name, text::join(items, ";"));
    }
    assert(param_views(params@) =~= param_views(old(params)@) + listed(name@, items@));
}

fn push_metrics(params: &mut Vec<Param>, metrics: &Vec<String>)
    ensures
        param_views(final(params)@) == param_views(old(params)@) + seq![
            ("metrics"@, metrics_value(metrics@)),
        ],
{
    if metrics.len() == 0 {
        push_param(params, "metrics", "visitors".to_owned());
    } else {
        push_param(params, "metrics", text::join(metrics, ","));
    }
}

impl AggregateQuery {
    /// The query parameters of the request.
    pub fn params(&self) -> (params: Vec<Param>)
        ensures
            param_views(params@) == aggregate_params(*self),
    {
        let mut params: Vec<Param> = Vec::new();
        push_param(&mut params, "site_id", self.site_id.clone());
        push_metrics(&mut params, &self.metrics);
        assert(param_views(params@) =~= seq![
            ("site_id"@, self.site_id@),
            ("metrics"@, metrics_value(self.metrics@)),
        ]);
        push_optional(&mut params, "period", &self.period);
        push_optional(&mut params, "date", &self.date);
        push_list(&mut params, "filters", &self.filters);
        push_list(&mut params, "properties", &self.properties);
        push_optional(&mut params, "compare", &self.compare);
        push_optional(&mut params, "interval", &self.interval);
        push_optional(&mut params, "sort", &self.sort);
        push_numeric(&mut params, "limit", self.limit);
        push_numeric(&mut params, "page", self.page);
        params
    }
}

impl TimeseriesQuery {
    /// The query parameters of the request.
    pub fn params(&self) -> (params: Vec<Param>)
        ensures
            param_views(params@) == timeseries_params(*self),
    {
        let mut params: Vec<Param> = Vec::new();
        push_param(&mut params, "site_id", self.site_id.clone());
        push_metrics(&mut params, &self.metrics);
        assert(param_views(params@) =~= seq![
            ("site_id"@, self.site_id@),
            ("metrics"@, metrics_value(self.metrics@)),
        ]);
        push_optional(&mut params, "period", &self.period);
        push_optional(&mut params, "date", &self.date);
        push_list(&mut params, "filters", &self.filters);
        push_list(&mut params, "properties", &self.properties);
        push_optional(&mut params, "compare", &self.compare);
        push_optional(&mut params, "interval", &self.interval);
        push_optional(&mut params, "sort", &self.sort);
        push_numeric(&mut params, "limit", self.limit);
        push_numeric(&mut params, "page", self.page);
        params
    }
}

impl BreakdownQuery {
    /// The query parameters of the request.
    pub fn params(&self) -> (params: Vec<Param>)
        ensures
            param_views(params@) == breakdown_params(*self),
    {
        let mut params: Vec<Param> = Vec::new();
        push_param(&mut params, "site_id", self.site_id.clone());
        push_param(&mut params, "property", self.property.clone());
        push_metrics(&mut params, &self.metrics);
        assert(param_views(params@) =~= seq![
            ("site_id"@, self.site_id@),
            ("property"@, self.property@),
            ("metrics"@, metrics_value(self.metrics@)),
        ]);
        push_optional(&mut params, "period", &self.period);
        push_optional(&mut params, "date", &self.date);
        push_list(&mut params, "filters", &self.filters);
        push_list(&mut params, "properties", &self.properties);
        push_optional(&mut params, "compare", &self.compare);
        push_optional(&mut params, "sort", &self.sort);
        push_numeric(&mut params, "limit", self.limit);
        push_numeric(&mut params, "page", self.page);
        push_optional(&mut params, "include", &self.included);
        params
    }
}

/// HTTP request methods.
#[derive(Debug, Clone, Copy, PartialEq, Eq, Structural)]
pub enum Method {
    Get,
    Post,
    Put,
    Delete,
}

/// A request to the API.
#[derive(Debug)]
pub struct ApiRequest {
    pub method: Method,
    pub url: String,
    /// The API key that authorises the request.
    pub bearer: String,
    pub query: Vec<Param>,
    /// What the request carries, as JSON.
    pub body: Option<Value>,
}

/// What an optional body says.
pub open spec fn carried(body: Option<Value>) -> Option<json::Json> {
    match body {
        Some(value) => Some(json::content(value)),
        None => None,
    }
}

/// The member of an optional text, if there is one.
pub open spec fn text_member(name: Seq<char>, value: Option<Seq<char>>) -> Seq<json::Member> {
    match value {
        Some(t) => seq![(name, json::Json::Text(t))],
        None => Seq::empty(),
    }
}

/// The member of an optional truth value, if there is one.
pub open spec fn truth_member(name: Seq<char>, value: Option<bool>) -> Seq<json::Member> {
    match value {
        Some(b) => seq![(name, json::Json::Bool(b))],
        None => Seq::empty(),
    }
}

fn add_text(list: &mut Vec<(String, Value)>, name: &str, value: &Option<String>)
    ensures
        json::member_contents(final(list)@) == json::member_contents(old(list)@) + text_member(
            name@,
            value.deep_view(),
        ),
{
    match value {
        Some(t) => push_text(list, name, t.as_str()),
        None => {},
    }
    assert(json::member_contents(list@) =~= json::member_contents(old(list)@) + text_member(
        name@,
        value.deep_view(),
    ));
}

fn add_truth(list: &mut Vec<(String, Value)>, name: &str, value: Option<bool>)
    ensures
        json::member_contents(final(list)@) == json::member_contents(old(list)@) + truth_member(
            name@,
            value,
        ),
{
    match value {
        Some(b) => push_member(list, name, single(Datum::Bool(b))),
        None => {},
    }
    assert(json::member_contents(list@) =~= json::member_contents(old(list)@) + truth_member(
        name@,
        value,
    ));
}

impl CreateSiteRequest {
    /// What the request for the site carries.
    pub open spec fn document(self) -> json::Json {
        json::object(
            seq![("domain"@, json::Json::Text(self.domain@))] + text_member(
                "timezone"@,
                self.timezone.deep_view(),
            ) + truth_member("public"@, self.public),
        )
    }

    fn body(&self) -> (value: Value)
        ensures
            json::content(value) == self.document(),
    {
        let mut list: Vec<(String, Value)> = Vec::new();
        push_text(&mut list, "domain", self.domain.as_str());
        assert(json::member_contents(list@) =~= seq![("domain"@, json::Json::Text(self.domain@))]);
        add_text(&mut list, "timezone", &self.timezone);
        add_truth(&mut list, "public", self.public);
        object_of(list)
    }
}

impl UpdateSiteRequest {
    /// What the request for the changes carries: what is not to be changed is left out.
    pub open spec fn document(self) -> json::Json {
        json::object(
            text_member("timezone"@, self.timezone.deep_view()) + truth_member(
                "public"@,
                self.public,
            ) + truth_member("main_site"@, self.main_site),
        )
    }

    fn body(&self) -> (value: Value)
        ensures
            json::content(value) == self.document(),
    {
        let mut list: Vec<(String, Value)> = Vec::new();
        add_text(&mut list, "timezone", &self.timezone);
        assert(json::member_contents(list@) =~= text_member(
            "timezone"@,
            self.timezone.deep_view(),
        ));
        add_truth(&mut list, "public", self.public);
        add_truth(&mut list, "main_site", self.main_site);
        object_of(list)
    }
}

impl ResetSiteStatsRequest {
    /// What the request for the reset carries.
    pub open spec fn document(self) -> json::Json {
        json::object(text_member("date"@, self.date.deep_view()))
    }

    fn body(&self) -> (value: Value)
        ensures
            json::content(value) == self.document(),
    {
        let mut list: Vec<(String, Value)> = Vec::new();
        add_text(&mut list, "date", &self.date);
        assert(json::member_contents(list@) =~= text_member("date"@, self.date.deep_view()));
        object_of(list)
    }
}

/// The path that a base URL gets: it ends with a slash. Nothing if it does already.
pub open spec fn normal_path(path: Seq<char>) -> Option<Seq<char>> {
    if path.len() > 0 && path.last() == '/' {
        None
    } else {
        Some(path.push('/'))
    }
}

/// The path that a base URL with the given path gets, or nothing if it keeps its own.
pub fn normalized_path(path: &str) -> (normal: Option<String>)
    ensures
        normal.deep_view() == normal_path(path@),
{
    let chars = text::chars_of(path);
    if chars.len() > 0 && chars[chars.len() - 1] == '/' {
        None
    } else {
        let mut longer = path.to_owned();
        longer.push('/');
        Some(longer)
    }
}

/// The base URL that stands for a URL: one whose path ends with a slash. There is none where `url`
/// could not count its characters.
pub open spec fn normal_base(url: Seq<char>) -> Result<Seq<char>, Seq<char>> {
    match url_path(url) {
        Err(e) => Err(e),
        Ok(path) => match normal_path(path) {
            None => Ok(url),
            Some(longer) => match url_parsed(url) {
                Err(e) => Err(e),
                Ok(normal) => if countable(normal, path) {
                    url_with_path(url, longer)
                } else {
                    Err("URL is too long"@)
                },
            },
        },
    }
}

/// Whether a base URL is what normalising makes of it.
pub open spec fn settled(url: Seq<char>) -> bool {
    normal_base(url) == Ok::<Seq<char>, Seq<char>>(url)
}

/// Whether a base URL is a URL as it was given, or its normal form with a slash appended to its
/// path.
pub open spec fn based_on(base: Seq<char>, url: Seq<char>) -> bool {
    base == url || (url_parsed(url) matches Ok(normal) && url_path(url) matches Ok(path)
        && slash_appended(normal, path, base))
}

fn is_countable(url: &str, path: &str) -> (yes: bool)
    ensures
        yes == countable(url@, path@),
{
    let chars = text::chars_of(url);
    let end: usize = text::count_before(&chars, '?', '#');
    let growth: usize = if path.unicode_len() == 0 && end > 0 && chars[end - 1] == ':' {
        3
    } else {
        1
    };
    let room: usize = 0xffff_ffff - growth;
    end <= room && (!text::contains_char(url, '#') || text::count_before(&chars, '#', '#') <= room)
}

/// Makes the path of a base URL end with a slash, so that endpoints are resolved below it. Nothing
/// else of a URL of the web changes, and normalising it again changes nothing.
pub fn normalize_base_url(url: &str) -> (outcome: Result<String, ClientError>)
    ensures
        match normal_base(url@) {
            Ok(normal) => outcome matches Ok(u) && u@ == normal,
            Err(e) => outcome matches Err(ClientError::InvalidBaseUrl(m)) && m@ == e,
        },
        outcome matches Ok(u) ==> (of_the_web(u@) ==> settled(u@) && based_on(u@, url@)),
{
    let path = match path_of_url(url) {
        Ok(path) => path,
        Err(e) => {
            return Err(ClientError::InvalidBaseUrl(e));
        },
    };
    let longer = match normalized_path(path.as_str()) {
        None => {
            return Ok(url.to_owned());
        },
        Some(longer) => longer,
    };
    let normal = match parse_url(url) {
        Ok(normal) => normal,
        Err(e) => {
            return Err(ClientError::InvalidBaseUrl(e));
        },
    };
    assert(longer@.drop_last() =~= path@);
    if !is_countable(normal.as_str(), path.as_str()) {
        return Err(ClientError::InvalidBaseUrl("URL is too long".to_owned()));
    }
    match set_url_path(url, longer.as_str()) {
        Ok(base) => Ok(base),
        Err(e) => Err(ClientError::InvalidBaseUrl(e)),
    }
}

/// Whether a status code reports success.
pub open spec fn successful(status: u16) -> bool {
    200 <= status < 300
}

/// Whether a status code reports success.
pub fn is_success(status: u16) -> (yes: bool)
    ensures
        yes == successful(status),
        yes <==> 200 <= status <= 299,
{
    200 <= status && status < 300
}

/// Judges a response by its status: the body of a successful one is to be decoded, any other is an
/// error with the body as its message, if the body could be read.
pub fn handle_response(status: u16, body: Option<String>) -> (outcome: Result<(), ClientError>)
    ensures
        outcome is Ok <==> 200 <= status <= 299,
        if successful(status) {
            outcome is Ok
        } else {
            &&& outcome matches Err(ClientError::Api { status: s, message })
            &&& s == status
            &&& message@ == (match body {
                Some(text) => text@,
                None => "unable to read error body"@,
            })
        },
{
    if is_success(status) {
        Ok(())
    } else {
        let message = match body {
            Some(text) => text,
            None => "unable to read error body".to_owned(),
        };
        Err(ClientError::Api { status, message })
    }
}

/// High-level Plausible API client: which requests it makes, not how they are sent.
#[derive(Debug)]
pub struct PlausibleClient {
    base_url: String,
    api_key: String,
    user_agent: String,
}

impl PlausibleClient {
    /// The base URL that endpoints are resolved against.
    pub closed spec fn base(self) -> Seq<char> {
        self.base_url@
    }

    /// The API key that authorises requests.
    pub closed spec fn key(self) -> Seq<char> {
        self.api_key@
    }

    /// How the client introduces itself.
    pub closed spec fn agent(self) -> Seq<char> {
        self.user_agent@
    }

    /// Whether the base URL, if it is one of the web, is what normalising makes of it.
    pub open spec fn wf(self) -> bool {
        of_the_web(self.base()) ==> settled(self.base())
    }

    /// Whether an attempt to make a client for a base URL came out as it should: an empty key is
    /// refused first, then a base URL that cannot be normalised.
    pub open spec fn made(
        outcome: Result<PlausibleClient, ClientError>,
        api_key: Seq<char>,
        base_url: Seq<char>,
    ) -> bool {
        if text::trimmed(api_key).len() == 0 {
            outcome matches Err(ClientError::Validation(m)) && m@ == "api_key cannot be empty"@
        } else {
            match normal_base(base_url) {
                Err(e) => outcome matches Err(ClientError::InvalidBaseUrl(m)) && m@ == e,
                Ok(base) => {
                    &&& outcome matches Ok(client)
                    &&& client.base() == base
                    &&& client.key() == api_key
                    &&& client.agent() == USER_AGENT@
                },
            }
        }
    }

    /// Whether an attempt to make a client for a base URL as the user writes it came out as it
    /// should: a text that is no URL is refused first.
    pub open spec fn made_from_text(
        outcome: Result<PlausibleClient, ClientError>,
        api_key: Seq<char>,
        base: Seq<char>,
    ) -> bool {
        match url_parsed(base) {
            Err(e) => outcome matches Err(ClientError::InvalidBaseUrl(m)) && m@ == e,
            Ok(url) => PlausibleClient::made(outcome, api_key, url),
        }
    }

    /// Create a new client targeting the public Plausible API endpoint.
    pub fn new(api_key: String) -> (outcome: Result<PlausibleClient, ClientError>)
        ensures
            PlausibleClient::made_from_text(outcome, api_key@, DEFAULT_BASE_URL@),
            outcome matches Ok(client) ==> client.wf(),
    {
        PlausibleClient::with_base_text(api_key, DEFAULT_BASE_URL)
    }

    /// Create a client for a base URL as the user writes it.
    pub fn with_base_text(api_key: String, base: &str) -> (outcome: Result<
        PlausibleClient,
        ClientError,
    >)
        ensures
            PlausibleClient::made_from_text(outcome, api_key@, base@),
            outcome matches Ok(client) ==> client.wf(),
    {
        match parse_url(base) {
            Ok(url) => PlausibleClient::with_base_url(api_key, url.as_str()),
            Err(e) => Err(ClientError::InvalidBaseUrl(e)),
        }
    }

    /// Create a client with a custom base URL (useful for self-hosted Plausible).
    pub fn with_base_url(api_key: String, base_url: &str) -> (outcome: Result<
        PlausibleClient,
        ClientError,
    >)
        ensures
            PlausibleClient::made(outcome, api_key@, base_url@),
            outcome matches Ok(client) ==> client.wf() && (of_the_web(client.base()) ==> based_on(
                client.base(),
                base_url@,
            )),
    {
        if text::is_blank(api_key.as_str()) {
            return Err(ClientError::Validation("api_key cannot be empty".to_owned()));
        }
        match normalize_base_url(base_url) {
            Ok(base_url) => Ok(
                PlausibleClient { base_url, api_key, user_agent: USER_AGENT.to_owned() },
            ),
            Err(e) => Err(e),
        }
    }

    /// Returns the effective base URL.
    pub fn base_url(&self) -> (url: &str)
        ensures
            url@ == self.base(),
    {
        self.base_url.as_str()
    }

    /// Returns the configured user agent string.
    pub fn user_agent(&self) -> (agent: &str)
        ensures
            agent@ == self.agent(),
    {
        self.user_agent.as_str()
    }

    /// The URL of an endpoint.
    pub fn endpoint(&self, fragment: &str) -> (outcome: Result<String, ClientError>)
        ensures
            match url_joined(self.base(), fragment@) {
                Ok(url) => outcome matches Ok(u) && u@ == url,
                Err(e) => outcome matches Err(ClientError::InvalidEndpoint(m)) && m@ == e,
            },
    {
        match join_url(self.base_url.as_str(), fragment) {
            Ok(url) => Ok(url),
            Err(e) => Err(ClientError::InvalidEndpoint(e)),
        }
    }

    /// Whether an outcome is the request for an endpoint with the given parameters and body,
    /// authorised by the API key, or the error that the endpoint has no URL.
    pub open spec fn asks(
        self,
        outcome: Result<ApiRequest, ClientError>,
        method: Method,
        fragment: Seq<char>,
        query: Seq<(Seq<char>, Seq<char>)>,
        body: Option<json::Json>,
    ) -> bool {
        match url_joined(self.base(), fragment) {
            Err(e) => outcome matches Err(ClientError::InvalidEndpoint(m)) && m@ == e,
            Ok(url) => {
                &&& outcome matches Ok(request)
                &&& request.method == method
                &&& request.url@ == url
                &&& request.bearer@ == self.key()
                &&& param_views(request.query@) == query
                &&& carried(request.body) == body
            },
        }
    }

    /// A request that asks for something.
    fn get(&self, fragment: &str, query: Vec<Param>) -> (outcome: Result<ApiRequest, ClientError>)
        ensures
            self.asks(outcome, Method::Get, fragment@, param_views(query@), None),
    {
        match self.endpoint(fragment) {
            Ok(url) => Ok(
                ApiRequest {
                    method: Method::Get,
                    url,
                    bearer: self.api_key.clone(),
                    query,
                    body: None,
                },
            ),
            Err(e) => Err(e),
        }
    }

    /// A request that changes something.
    fn change(&self, method: Method, fragment: &str, body: Option<Value>) -> (outcome: Result<
        ApiRequest,
        ClientError,
    >)
        ensures
            self.asks(outcome, method, fragment@, Seq::empty(), carried(body)),
    {
        let query: Vec<Param> = Vec::new();
        assert(param_views(query@) =~= Seq::empty());
        match self.endpoint(fragment) {
            Ok(url) => Ok(ApiRequest { method, url, bearer: self.api_key.clone(), query, body }),
            Err(e) => Err(e),
        }
    }

    /// Fetch the list of sites accessible to the API key.
    pub fn list_sites(&self) -> (outcome: Result<ApiRequest, ClientError>)
        ensures
            self.asks(outcome, Method::Get, "api/v1/sites"@, Seq::empty(), None),
    {
        let query: Vec<Param> = Vec::new();
        assert(param_views(query@) =~= Seq::empty());
        self.get("api/v1/sites", query)
    }

    /// Whether an outcome refuses a request because it names no site.
    pub open spec fn refuses_site(outcome: Result<ApiRequest, ClientError>) -> bool {
        outcome matches Err(ClientError::Validation(m)) && m@ == "site_id cannot be empty"@
    }

    /// Query aggregate statistics for a site.
    pub fn stats_aggregate(&self, query: &AggregateQuery) -> (outcome: Result<
        ApiRequest,
        ClientError,
    >)
        ensures
            if text::trimmed(query.site_id@).len() == 0 {
                PlausibleClient::refuses_site(outcome)
            } else {
                self.asks(
                    outcome,
                    Method::Get,
                    "api/v1/stats/aggregate"@,
                    aggregate_params(*query),
                    None,
                )
            },
    {
        if text::is_blank(query.site_id.as_str()) {
            return Err(ClientError::Validation("site_id cannot be empty".to_owned()));
        }
        self.get("api/v1/stats/aggregate", query.params())
    }

    /// Query statistics of a site over time.
    pub fn stats_timeseries(&self, query: &TimeseriesQuery) -> (outcome: Result<
        ApiRequest,
        ClientError,
    >)
        ensures
            if text::trimmed(query.site_id@).len() == 0 {
                PlausibleClient::refuses_site(outcome)
            } else {
                self.asks(
                    outcome,
                    Method::Get,
                    "api/v1/stats/timeseries"@,
                    timeseries_params(*query),
                    None,
                )
            },
    {
        if text::is_blank(query.site_id.as_str()) {
            return Err(ClientError::Validation("site_id cannot be empty".to_owned()));
        }
        self.get("api/v1/stats/timeseries", query.params())
    }

    /// Query statistics of a site by the values of a property.
    pub fn stats_breakdown(&self, query: &BreakdownQuery) -> (outcome: Result<
        ApiRequest,
        ClientError,
    >)
        ensures
            if text::trimmed(query.site_id@).len() == 0 {
                PlausibleClient::refuses_site(outcome)
            } else {
                self.asks(
                    outcome,
                    Method::Get,
                    "api/v1/stats/breakdown"@,
                    breakdown_params(*query),
                    None,
                )
            },
    {
        if text::is_blank(query.site_id.as_str()) {
            return Err(ClientError::Validation("site_id cannot be empty".to_owned()));
        }
        self.get("api/v1/stats/breakdown", query.params())
    }

    /// Ask how many visitors a site has at this moment.
    pub fn stats_realtime_visitors(&self, site_id: &str) -> (outcome: Result<
        ApiRequest,
        ClientError,
    >)
        ensures
            if text::trimmed(site_id@).len() == 0 {
                PlausibleClient::refuses_site(outcome)
            } else {
                self.asks(
                    outcome,
                    Method::Get,
                    "api/v1/stats/realtime/visitors"@,
                    seq![("site_id"@, site_id@)],
                    None,
                )
            },
    {
        if text::is_blank(site_id) {
            return Err(ClientError::Validation("site_id cannot be empty".to_owned()));
        }
        let mut query: Vec<Param> = Vec::new();
        push_param(&mut query, "site_id", site_id.to_owned());
        assert(param_views(query@) =~= seq![("site_id"@, site_id@)]);
        self.get("api/v1/stats/realtime/visitors", query)
    }

    /// Create a site.
    pub fn create_site(&self, request: &CreateSiteRequest) -> (outcome: Result<
        ApiRequest,
        ClientError,
    >)
        ensures
            self.asks(
                outcome,
                Method::Post,
                "api/v1/sites"@,
                Seq::empty(),
                Some(request.document()),
            ),
    {
        self.change(Method::Post, "api/v1/sites", Some(request.body()))
    }

    /// Update a site.
    pub fn update_site(&self, site_id: &str, request: &UpdateSiteRequest) -> (outcome: Result<
        ApiRequest,
        ClientError,
    >)
        ensures
            self.asks(
                outcome,
                Method::Put,
                "api/v1/sites/"@ + site_id@,
                Seq::empty(),
                Some(request.document()),
            ),
    {
        let fragment = "api/v1/sites/".to_owned().concat(site_id);
        self.change(Method::Put, fragment.as_str(), Some(request.body()))
    }

    /// Reset the statistics of a site.
    pub fn reset_site_stats(&self, site_id: &str, request: &ResetSiteStatsRequest) -> (outcome:
        Result<ApiRequest, ClientError>)
        ensures
            self.asks(
                outcome,
                Method::Post,
                "api/v1/sites/"@ + site_id@ + "/reset"@,
                Seq::empty(),
                Some(request.document()),
            ),
    {
        let fragment = "api/v1/sites/".to_owned().concat(site_id).concat("/reset");
        self.change(Method::Post, fragment.as_str(), Some(request.body()))
    }

    /// Delete a site.
    pub fn delete_site(&self, site_id: &str) -> (outcome: Result<ApiRequest, ClientError>)
        ensures
            self.asks(
                outcome,
                Method::Delete,
                "api/v1/sites/"@ + site_id@,
                Seq::empty(),
                None,
            ),
    {
        self.change(Method::Delete, "api/v1/sites/".to_owned().concat(site_id).as_str(), None)
    }

    /// Send a custom event.
    pub fn send_event(&self, event: &Value) -> (outcome: Result<ApiRequest, ClientError>)
        ensures
            self.asks(
                outcome,
                Method::Post,
                "api/event"@,
                Seq::empty(),
                Some(json::content(*event)),
            ),
    {
        self.change(Method::Post, "api/event", Some(event.clone()))
    }
}

/// Normalising the path of a base URL twice is normalising it once.
pub proof fn law_normal_path_is_stable(path: Seq<char>)
    ensures
        normal_path(path) matches Some(longer) ==> normal_path(longer) is None,
{
}

/// A client for the public instance is what a client for its URL is: both come about or both are
/// refused, and they have the same base URL, key and introduction.
pub proof fn law_new_client_targets_the_public_instance(
    new: Result<PlausibleClient, ClientError>,
    based: Result<PlausibleClient, ClientError>,
    api_key: Seq<char>,
    url: Seq<char>,
)
    requires
        PlausibleClient::made_from_text(new, api_key, DEFAULT_BASE_URL@),
        PlausibleClient::made(based, api_key, url),
    ensures
        url_parsed(DEFAULT_BASE_URL@) == Ok::<Seq<char>, Seq<char>>(url) ==> {
            &&& new is Ok <==> based is Ok
            &&& new is Ok ==> {
                &&& new->Ok_0.base() == based->Ok_0.base()
                &&& new->Ok_0.key() == based->Ok_0.key()
                &&& new->Ok_0.agent() == based->Ok_0.agent()
            }
        },
{
}

/// The base URL of a client is a base URL for another: a client that is made with it has the same,
/// whatever its key.
pub proof fn law_base_url_is_kept(
    first: PlausibleClient,
    api_key: Seq<char>,
    second: Result<PlausibleClient, ClientError>,
)
    requires
        first.wf(),
        of_the_web(first.base()),
        text::trimmed(api_key).len() > 0,
        PlausibleClient::made(second, api_key, first.base()),
    ensures
        second matches Ok(client) && client.base() == first.base(),
{
}

/// Every query names its site first, and asks for at least one metric: for visitors if it names
/// none. A breakdown names its property in between.
pub proof fn law_queries_name_site_and_metrics(
    aggregate: AggregateQuery,
    timeseries: TimeseriesQuery,
    breakdown: BreakdownQuery,
)
    ensures
        ({
            let params = aggregate_params(aggregate);
            &&& params.len() >= 2
            &&& params[0] == ("site_id"@, aggregate.site_id@)
            &&& params[1] == ("metrics"@, metrics_value(aggregate.metrics@))
        }),
        ({
            let params = timeseries_params(timeseries);
            &&& params.len() >= 2
            &&& params[0] == ("site_id"@, timeseries.site_id@)
            &&& params[1] == ("metrics"@, metrics_value(timeseries.metrics@))
        }),
        ({
            let params = breakdown_params(breakdown);
            &&& params.len() >= 3
            &&& params[0] == ("site_id"@, breakdown.site_id@)
            &&& params[1] == ("property"@, breakdown.property@)
            &&& params[2] == ("metrics"@, metrics_value(breakdown.metrics@))
        }),
        metrics_value(Seq::empty()) == "visitors"@,
{
}

/// Whether query parameters carry a value under a name, exactly once, or nothing under that name.
pub open spec fn carry(
    params: Seq<(Seq<char>, Seq<char>)>,
    name: Seq<char>,
    value: Option<Seq<char>>,
) -> bool {
    match value {
        Some(v) => exists|i: int|
            #![trigger params[i]]
            0 <= i < params.len() && params[i] == (name, v) && forall|j: int|
                0 <= j < params.len() && (#[trigger] params[j]).0 == name ==> j == i,
        None => forall|i: int| 0 <= i < params.len() ==> (#[trigger] params[i]).0 != name,
    }
}

/// The parameters of arguments, each of which is sent if it is given.
spec fn sent(arguments: Seq<(Seq<char>, Option<Seq<char>>)>) -> Seq<(Seq<char>, Seq<char>)>
    decreases arguments.len(),
{
    if arguments.len() == 0 {
        Seq::empty()
    } else {
        sent(arguments.drop_last()) + optional(arguments.last().0, arguments.last().1)
    }
}

/// Whether no two arguments have the same name.
spec fn distinct(arguments: Seq<(Seq<char>, Option<Seq<char>>)>) -> bool {
    forall|i: int, j: int|
        0 <= i < j < arguments.len() ==> (#[trigger] arguments[i]).0 != (#[trigger] arguments[j]).0
}

/// Whether no argument has a name.
spec fn unused(arguments: Seq<(Seq<char>, Option<Seq<char>>)>, name: Seq<char>) -> bool {
    forall|i: int| 0 <= i < arguments.len() ==> (#[trigger] arguments[i]).0 != name
}

/// One more argument under a name that is not used yet.
proof fn lemma_sent_push(
    arguments: Seq<(Seq<char>, Option<Seq<char>>)>,
    name: Seq<char>,
    value: Option<Seq<char>>,
)
    requires
        distinct(arguments),
        unused(arguments, name),
    ensures
        sent(arguments.push((name, value))) == sent(arguments) + optional(name, value),
        distinct(arguments.push((name, value))),
        forall|n: Seq<char>| #[trigger]
            unused(arguments.push((name, value)), n) <==> unused(arguments, n) && n != name,
{
    let more = arguments.push((name, value));
    assert(more.drop_last() =~= arguments);
    assert forall|n: Seq<char>| #[trigger] unused(more, n) <==> unused(arguments, n) && n
        != name by {
        if unused(more, n) {
            assert(more[arguments.len() as int].0 != n);
            assert forall|i: int| 0 <= i < arguments.len() implies (#[trigger] arguments[i]).0
                != n by {
                assert(more[i] == arguments[i]);
            }
        }
    }
}

proof fn lemma_unsent_name(arguments: Seq<(Seq<char>, Option<Seq<char>>)>, name: Seq<char>)
    requires
        forall|i: int| 0 <= i < arguments.len() ==> (#[trigger] arguments[i]).0 != name,
    ensures
        carry(sent(arguments), name, None),
    decreases arguments.len(),
{
    if arguments.len() > 0 {
        let init = arguments.drop_last();
        assert forall|i: int| 0 <= i < init.len() implies (#[trigger] init[i]).0 != name by {
            assert(init[i] == arguments[i]);
        }
        lemma_unsent_name(init, name);
        assert(arguments[arguments.len() - 1].0 != name);
        let last = optional(arguments.last().0, arguments.last().1);
        assert forall|i: int| 0 <= i < sent(arguments).len() implies (
        #[trigger] sent(arguments)[i]).0 != name by {
            if i < sent(init).len() {
                assert(sent(arguments)[i] == sent(init)[i]);
            } else {
                assert(sent(arguments)[i] == last[i - sent(init).len()]);
            }
        }
    }
}

proof fn lemma_sent_name(arguments: Seq<(Seq<char>, Option<Seq<char>>)>, at: int)
    requires
        distinct(arguments),
        0 <= at < arguments.len(),
    ensures
        carry(sent(arguments), arguments[at].0, arguments[at].1),
    decreases arguments.len(),
{
    let (name, value) = arguments[at];
    let init = arguments.drop_last();
    let last = optional(arguments.last().0, arguments.last().1);
    let all = sent(arguments);
    let n = sent(init).len() as int;
    if at < init.len() {
        assert(init[at] == arguments[at]);
        assert(distinct(init)) by {
            assert forall|i: int, j: int| 0 <= i < j < init.len() implies (#[trigger] init[i]).0
                != (#[trigger] init[j]).0 by {
                assert(init[i] == arguments[i] && init[j] == arguments[j]);
            }
        }
        lemma_sent_name(init, at);
        assert(arguments[at].0 != arguments[arguments.len() - 1].0);
        assert forall|j: int| n <= j < all.len() implies (#[trigger] all[j]).0 != name by {
            assert(all[j] == last[j - n]);
        }
        if value is Some {
            let i = choose|i: int|
                #![trigger sent(init)[i]]
                0 <= i < n && sent(init)[i] == (name, value->Some_0) && forall|j: int|
                    0 <= j < n && (#[trigger] sent(init)[j]).0 == name ==> j == i;
            assert(all[i] == (name, value->Some_0));
            assert forall|j: int| 0 <= j < all.len() && (#[trigger] all[j]).0 == name implies j
                == i by {
                if j < n {
                    assert(sent(init)[j] == all[j]);
                }
            }
        } else {
            assert forall|j: int| 0 <= j < all.len() implies (#[trigger] all[j]).0 != name by {
                if j < n {
                    assert(sent(init)[j] == all[j]);
                }
            }
        }
    } else {
        assert forall|i: int| 0 <= i < init.len() implies (#[trigger] init[i]).0 != name by {
            assert(init[i] == arguments[i]);
            assert(arguments[i].0 != arguments[at].0);
        }
        lemma_unsent_name(init, name);
        assert forall|j: int| 0 <= j < n implies (#[trigger] all[j]).0 != name by {
            assert(sent(init)[j] == all[j]);
        }
        if value is Some {
            assert(all[n] == last[0]);
        }
    }
}

/// The names of parameters, told apart by length and first letter.
pub proof fn lemma_parameter_names()
    ensures
        "site_id"@.len() == 7 && "site_id"@[0] == 's',
        "property"@.len() == 8 && "property"@[0] == 'p',
        "metrics"@.len() == 7 && "metrics"@[0] == 'm',
        "period"@.len() == 6,
        "date"@.len() == 4 && "date"@[0] == 'd',
        "filters"@.len() == 7 && "filters"@[0] == 'f',
        "properties"@.len() == 10,
        "compare"@.len() == 7 && "compare"@[0] == 'c',
        "interval"@.len() == 8 && "interval"@[0] == 'i',
        "sort"@.len() == 4 && "sort"@[0] == 's',
        "limit"@.len() == 5,
        "page"@.len() == 4 && "page"@[0] == 'p',
        "include"@.len() == 7 && "include"@[0] == 'i',
{
    reveal_strlit("site_id");
    reveal_strlit("property");
    reveal_strlit("metrics");
    reveal_strlit("period");
    reveal_strlit("date");
    reveal_strlit("filters");
    reveal_strlit("properties");
    reveal_strlit("compare");
    reveal_strlit("interval");
    reveal_strlit("sort");
    reveal_strlit("limit");
    reveal_strlit("page");
    reveal_strlit("include");
}

/// A query for totals sends each argument that is given under its name, whatever the other
/// arguments are; an argument that is not given is not sent, and nothing else is sent.
#[verifier::rlimit(60)]
pub proof fn law_aggregate_sends_what_is_given(query: AggregateQuery)
    ensures
        carry(aggregate_params(query), "site_id"@, Some(query.site_id@)),
        carry(
            aggregate_params(query),
            "metrics"@,
            Some(
                if query.metrics@.len() == 0 {
                    "visitors"@
                } else {
                    text::joined(text::views(query.metrics@), ","@)
                },
            ),
        ),
        carry(aggregate_params(query), "period"@, query.period.deep_view()),
        carry(aggregate_params(query), "date"@, query.date.deep_view()),
        carry(
            aggregate_params(query),
            "filters"@,
            if query.filters@.len() == 0 {
                None
            } else {
                Some(text::joined(text::views(query.filters@), ";"@))
            },
        ),
        carry(
            aggregate_params(query),
            "properties"@,
            if query.properties@.len() == 0 {
                None
            } else {
                Some(text::joined(text::views(query.properties@), ";"@))
            },
        ),
        carry(aggregate_params(query), "compare"@, query.compare.deep_view()),
        carry(aggregate_params(query), "interval"@, query.interval.deep_view()),
        carry(aggregate_params(query), "sort"@, query.sort.deep_view()),
        carry(
            aggregate_params(query),
            "limit"@,
            match query.limit {
                Some(n) => Some(text::decimal(n as nat)),
                None => None,
            },
        ),
        carry(
            aggregate_params(query),
            "page"@,
            match query.page {
                Some(n) => Some(text::decimal(n as nat)),
                None => None,
            },
        ),
        forall|name: Seq<char>|
            name != "site_id"@
                && name != "metrics"@
                && name != "period"@
                && name != "date"@
                && name != "filters"@
                && name != "properties"@
                && name != "compare"@
                && name != "interval"@
                && name != "sort"@
                && name != "limit"@
                && name != "page"@ ==> #[trigger] carry(aggregate_params(query), name, None),
{
    lemma_parameter_names();
    let site = Some(query.site_id@);
    let metrics = Some(
        if query.metrics@.len() == 0 {
            "visitors"@
        } else {
            text::joined(text::views(query.metrics@), ","@)
        },
    );
    let filters = if query.filters@.len() == 0 {
        None
    } else {
        Some(text::joined(text::views(query.filters@), ";"@))
    };
    let properties = if query.properties@.len() == 0 {
        None
    } else {
        Some(text::joined(text::views(query.properties@), ";"@))
    };
    let limit = match query.limit {
        Some(n) => Some(text::decimal(n as nat)),
        None => None,
    };
    let page = match query.page {
        Some(n) => Some(text::decimal(n as nat)),
        None => None,
    };
    let w0 = Seq::<(Seq<char>, Option<Seq<char>>)>::empty();
    lemma_sent_push(w0, "site_id"@, site);
    let w1 = w0.push(("site_id"@, site));
    lemma_sent_push(w1, "metrics"@, metrics);
    let w2 = w1.push(("metrics"@, metrics));
    lemma_sent_push(w2, "period"@, query.period.deep_view());
    let w3 = w2.push(("period"@, query.period.deep_view()));
    lemma_sent_push(w3, "date"@, query.date.deep_view());
    let w4 = w3.push(("date"@, query.date.deep_view()));
    lemma_sent_push(w4, "filters"@, filters);
    let w5 = w4.push(("filters"@, filters));
    lemma_sent_push(w5, "properties"@, properties);
    let w6 = w5.push(("properties"@, properties));
    lemma_sent_push(w6, "compare"@, query.compare.deep_view());
    let w7 = w6.push(("compare"@, query.compare.deep_view()));
    lemma_sent_push(w7, "interval"@, query.interval.deep_view());
    let w8 = w7.push(("interval"@, query.interval.deep_view()));
    lemma_sent_push(w8, "sort"@, query.sort.deep_view());
    let w9 = w8.push(("sort"@, query.sort.deep_view()));
    lemma_sent_push(w9, "limit"@, limit);
    let w10 = w9.push(("limit"@, limit));
    lemma_sent_push(w10, "page"@, page);
    let w11 = w10.push(("page"@, page));
    assert(sent(w2) =~= seq![
        ("site_id"@, site->Some_0),
        ("metrics"@, metrics->Some_0),
    ]);
    assert(sent(w11) == aggregate_params(query));
    lemma_sent_name(w11, 0);
    lemma_sent_name(w11, 1);
    lemma_sent_name(w11, 2);
    lemma_sent_name(w11, 3);
    lemma_sent_name(w11, 4);
    lemma_sent_name(w11, 5);
    lemma_sent_name(w11, 6);
    lemma_sent_name(w11, 7);
    lemma_sent_name(w11, 8);
    lemma_sent_name(w11, 9);
    lemma_sent_name(w11, 10);
    assert forall|name: Seq<char>|
        name != "site_id"@
            && name != "metrics"@
            && name != "period"@
            && name != "date"@
            && name != "filters"@
            && name != "properties"@
            && name != "compare"@
            && name != "interval"@
            && name != "sort"@
            && name != "limit"@
            && name != "page"@ implies #[trigger] carry(
        aggregate_params(query),
        name,
        None,
    ) by {
        assert(unused(w11, name));
        lemma_unsent_name(w11, name);
    }
}

/// A query for a series sends each argument that is given under its name, whatever the other
/// arguments are; an argument that is not given is not sent, and nothing else is sent.
#[verifier::rlimit(60)]
pub proof fn law_timeseries_sends_what_is_given(query: TimeseriesQuery)
    ensures
        carry(timeseries_params(query), "site_id"@, Some(query.site_id@)),
        carry(
            timeseries_params(query),
            "metrics"@,
            Some(
                if query.metrics@.len() == 0 {
                    "visitors"@
                } else {
                    text::joined(text::views(query.metrics@), ","@)
                },
            ),
        ),
        carry(timeseries_params(query), "period"@, query.period.deep_view()),
        carry(timeseries_params(query), "date"@, query.date.deep_view()),
        carry(
            timeseries_params(query),
            "filters"@,
            if query.filters@.len() == 0 {
                None
            } else {
                Some(text::joined(text::views(query.filters@), ";"@))
            },
        ),
        carry(
            timeseries_params(query),
            "properties"@,
            if query.properties@.len() == 0 {
                None
            } else {
                Some(text::joined(text::views(query.properties@), ";"@))
            },
        ),
        carry(timeseries_params(query), "compare"@, query.compare.deep_view()),
        carry(timeseries_params(query), "interval"@, query.interval.deep_view()),
        carry(timeseries_params(query), "sort"@, query.sort.deep_view()),
        carry(
            timeseries_params(query),
            "limit"@,
            match query.limit {
                Some(n) => Some(text::decimal(n as nat)),
                None => None,
            },
        ),
        carry(
            timeseries_params(query),
            "page"@,
            match query.page {
                Some(n) => Some(text::decimal(n as nat)),
                None => None,
            },
        ),
        forall|name: Seq<char>|
            name != "site_id"@
                && name != "metrics"@
                && name != "period"@
                && name != "date"@
                && name != "filters"@
                && name != "properties"@
                && name != "compare"@
                && name != "interval"@
                && name != "sort"@
                && name != "limit"@
                && name != "page"@ ==> #[trigger] carry(timeseries_params(query), name, None),
{
    lemma_parameter_names();
    let site = Some(query.site_id@);
    let metrics = Some(
        if query.metrics@.len() == 0 {
            "visitors"@
        } else {
            text::joined(text::views(query.metrics@), ","@)
        },
    );
    let filters = if query.filters@.len() == 0 {
        None
    } else {
        Some(text::joined(text::views(query.filters@), ";"@))
    };
    let properties = if query.properties@.len() == 0 {
        None
    } else {
        Some(text::joined(text::views(query.properties@), ";"@))
    };
    let limit = match query.limit {
        Some(n) => Some(text::decimal(n as nat)),
        None => None,
    };
    let page = match query.page {
        Some(n) => Some(text::decimal(n as nat)),
        None => None,
    };
    let w0 = Seq::<(Seq<char>, Option<Seq<char>>)>::empty();
    lemma_sent_push(w0, "site_id"@, site);
    let w1 = w0.push(("site_id"@, site));
    lemma_sent_push(w1, "metrics"@, metrics);
    let w2 = w1.push(("metrics"@, metrics));
    lemma_sent_push(w2, "period"@, query.period.deep_view());
    let w3 = w2.push(("period"@, query.period.deep_view()));
    lemma_sent_push(w3, "date"@, query.date.deep_view());
    let w4 = w3.push(("date"@, query.date.deep_view()));
    lemma_sent_push(w4, "filters"@, filters);
    let w5 = w4.push(("filters"@, filters));
    lemma_sent_push(w5, "properties"@, properties);
    let w6 = w5.push(("properties"@, properties));
    lemma_sent_push(w6, "compare"@, query.compare.deep_view());
    let w7 = w6.push(("compare"@, query.compare.deep_view()));
    lemma_sent_push(w7, "interval"@, query.interval.deep_view());
    let w8 = w7.push(("interval"@, query.interval.deep_view()));
    lemma_sent_push(w8, "sort"@, query.sort.deep_view());
    let w9 = w8.push(("sort"@, query.sort.deep_view()));
    lemma_sent_push(w9, "limit"@, limit);
    let w10 = w9.push(("limit"@, limit));
    lemma_sent_push(w10, "page"@, page);
    let w11 = w10.push(("page"@, page));
    assert(sent(w2) =~= seq![
        ("site_id"@, site->Some_0),
        ("metrics"@, metrics->Some_0),
    ]);
    assert(sent(w11) == timeseries_params(query));
    lemma_sent_name(w11, 0);
    lemma_sent_name(w11, 1);
    lemma_sent_name(w11, 2);
    lemma_sent_name(w11, 3);
    lemma_sent_name(w11, 4);
    lemma_sent_name(w11, 5);
    lemma_sent_name(w11, 6);
    lemma_sent_name(w11, 7);
    lemma_sent_name(w11, 8);
    lemma_sent_name(w11, 9);
    lemma_sent_name(w11, 10);
    assert forall|name: Seq<char>|
        name != "site_id"@
            && name != "metrics"@
            && name != "period"@
            && name != "date"@
            && name != "filters"@
            && name != "properties"@
            && name != "compare"@
            && name != "interval"@
            && name != "sort"@
            && name != "limit"@
            && name != "page"@ implies #[trigger] carry(
        timeseries_params(query),
        name,
        None,
    ) by {
        assert(unused(w11, name));
        lemma_unsent_name(w11, name);
    }
}

/// A query for a breakdown sends each argument that is given under its name, whatever the other
/// arguments are; an argument that is not given is not sent, and nothing else is sent.
#[verifier::rlimit(60)]
pub proof fn law_breakdown_sends_what_is_given(query: BreakdownQuery)
    ensures
        carry(breakdown_params(query), "site_id"@, Some(query.site_id@)),
        carry(breakdown_params(query), "property"@, Some(query.property@)),
        carry(
            breakdown_params(query),
            "metrics"@,
            Some(
                if query.metrics@.len() == 0 {
                    "visitors"@
                } else {
                    text::joined(text::views(query.metrics@), ","@)
                },
            ),
        ),
        carry(breakdown_params(query), "period"@, query.period.deep_view()),
        carry(breakdown_params(query), "date"@, query.date.deep_view()),
        carry(
            breakdown_params(query),
            "filters"@,
            if query.filters@.len() == 0 {
                None
            } else {
                Some(text::joined(text::views(query.filters@), ";"@))
            },
        ),
        carry(
            breakdown_params(query),
            "properties"@,
            if query.properties@.len() == 0 {
                None
            } else {
                Some(text::joined(text::views(query.properties@), ";"@))
            },
        ),
        carry(breakdown_params(query), "compare"@, query.compare.deep_view()),
        carry(breakdown_params(query), "sort"@, query.sort.deep_view()),
        carry(
            breakdown_params(query),
            "limit"@,
            match query.limit {
                Some(n) => Some(text::decimal(n as nat)),
                None => None,
            },
        ),
        carry(
            breakdown_params(query),
            "page"@,
            match query.page {
                Some(n) => Some(text::decimal(n as nat)),
                None => None,
            },
        ),
        carry(breakdown_params(query), "include"@, query.included.deep_view()),
        forall|name: Seq<char>|
            name != "site_id"@
                && name != "property"@
                && name != "metrics"@
                && name != "period"@
                && name != "date"@
                && name != "filters"@
                && name != "properties"@
                && name != "compare"@
                && name != "sort"@
                && name != "limit"@
                && name != "page"@
                && name != "include"@ ==> #[trigger] carry(breakdown_params(query), name, None),
{
    lemma_parameter_names();
    let site = Some(query.site_id@);
    let property = Some(query.property@);
    let metrics = Some(
        if query.metrics@.len() == 0 {
            "visitors"@
        } else {
            text::joined(text::views(query.metrics@), ","@)
        },
    );
    let filters = if query.filters@.len() == 0 {
        None
    } else {
        Some(text::joined(text::views(query.filters@), ";"@))
    };
    let properties = if query.properties@.len() == 0 {
        None
    } else {
        Some(text::joined(text::views(query.properties@), ";"@))
    };
    let limit = match query.limit {
        Some(n) => Some(text::decimal(n as nat)),
        None => None,
    };
    let page = match query.page {
        Some(n) => Some(text::decimal(n as nat)),
        None => None,
    };
    let w0 = Seq::<(Seq<char>, Option<Seq<char>>)>::empty();
    lemma_sent_push(w0, "site_id"@, site);
    let w1 = w0.push(("site_id"@, site));
    lemma_sent_push(w1, "property"@, property);
    let w2 = w1.push(("property"@, property));
    lemma_sent_push(w2, "metrics"@, metrics);
    let w3 = w2.push(("metrics"@, metrics));
    lemma_sent_push(w3, "period"@, query.period.deep_view());
    let w4 = w3.push(("period"@, query.period.deep_view()));
    lemma_sent_push(w4, "date"@, query.date.deep_view());
    let w5 = w4.push(("date"@, query.date.deep_view()));
    lemma_sent_push(w5, "filters"@, filters);
    let w6 = w5.push(("filters"@, filters));
    lemma_sent_push(w6, "properties"@, properties);
    let w7 = w6.push(("properties"@, properties));
    lemma_sent_push(w7, "compare"@, query.compare.deep_view());
    let w8 = w7.push(("compare"@, query.compare.deep_view()));
    lemma_sent_push(w8, "sort"@, query.sort.deep_view());
    let w9 = w8.push(("sort"@, query.sort.deep_view()));
    lemma_sent_push(w9, "limit"@, limit);
    let w10 = w9.push(("limit"@, limit));
    lemma_sent_push(w10, "page"@, page);
    let w11 = w10.push(("page"@, page));
    lemma_sent_push(w11, "include"@, query.included.deep_view());
    let w12 = w11.push(("include"@, query.included.deep_view()));
    assert(sent(w3) =~= seq![
        ("site_id"@, site->Some_0),
        ("property"@, property->Some_0),
        ("metrics"@, metrics->Some_0),
    ]);
    assert(sent(w12) == breakdown_params(query));
    lemma_sent_name(w12, 0);
    lemma_sent_name(w12, 1);
    lemma_sent_name(w12, 2);
    lemma_sent_name(w12, 3);
    lemma_sent_name(w12, 4);
    lemma_sent_name(w12, 5);
    lemma_sent_name(w12, 6);
    lemma_sent_name(w12, 7);
    lemma_sent_name(w12, 8);
    lemma_sent_name(w12, 9);
    lemma_sent_name(w12, 10);
    lemma_sent_name(w12, 11);
    assert forall|name: Seq<char>|
        name != "site_id"@
            && name != "property"@
            && name != "metrics"@
            && name != "period"@
            && name != "date"@
            && name != "filters"@
            && name != "properties"@
            && name != "compare"@
            && name != "sort"@
            && name != "limit"@
            && name != "page"@
            && name != "include"@ implies #[trigger] carry(
        breakdown_params(query),
        name,
        None,
    ) by {
        assert(unused(w12, name));
        lemma_unsent_name(w12, name);
    }
}

proof fn lemma_one_more_member(list: Seq<json::Member>, name: Seq<char>, value: json::Json)
    ensures
        json::by_name(list + seq![(name, value)]) == json::by_name(list).insert(name, value),
        json::by_name(list + Seq::<json::Member>::empty()) == json::by_name(list),
{
    assert((list + seq![(name, value)]).drop_last() =~= list);
    assert(list + Seq::<json::Member>::empty() =~= list);
}

/// The member of an optional text, by its name.
proof fn lemma_text_member(list: Seq<json::Member>, name: Seq<char>, value: Option<Seq<char>>)
    ensures
        json::by_name(list + text_member(name, value)) == match value {
            Some(t) => json::by_name(list).insert(name, json::Json::Text(t)),
            None => json::by_name(list),
        },
{
    if let Some(t) = value {
        lemma_one_more_member(list, name, json::Json::Text(t));
    } else {
        lemma_one_more_member(list, name, json::Json::Null);
    }
}

/// The member of an optional truth value, by its name.
proof fn lemma_truth_member(list: Seq<json::Member>, name: Seq<char>, value: Option<bool>)
    ensures
        json::by_name(list + truth_member(name, value)) == match value {
            Some(b) => json::by_name(list).insert(name, json::Json::Bool(b)),
            None => json::by_name(list),
        },
{
    if let Some(b) = value {
        lemma_one_more_member(list, name, json::Json::Bool(b));
    } else {
        lemma_one_more_member(list, name, json::Json::Null);
    }
}

/// A new site is described by its domain, and by its time zone and whether it is public if these
/// are given; what is not given is left out.
pub proof fn law_new_site_is_described(request: CreateSiteRequest)
    ensures
        json::has(request.document(), "domain"@, json::Json::Text(request.domain@)),
        match request.timezone {
            Some(t) => json::has(request.document(), "timezone"@, json::Json::Text(t@)),
            None => json::lacks(request.document(), "timezone"@),
        },
        match request.public {
            Some(b) => json::has(request.document(), "public"@, json::Json::Bool(b)),
            None => json::lacks(request.document(), "public"@),
        },
{
    reveal_strlit("domain");
    reveal_strlit("timezone");
    reveal_strlit("public");
    assert("domain"@.len() == 6 && "domain"@[0] == 'd');
    assert("timezone"@.len() == 8);
    assert("public"@.len() == 6 && "public"@[0] == 'p');
    let first = seq![("domain"@, json::Json::Text(request.domain@))];
    lemma_one_more_member(Seq::empty(), "domain"@, json::Json::Text(request.domain@));
    assert(Seq::empty() + first =~= first);
    lemma_text_member(first, "timezone"@, request.timezone.deep_view());
    lemma_truth_member(
        first + text_member("timezone"@, request.timezone.deep_view()),
        "public"@,
        request.public,
    );
}

/// The changes to a site are those that are given; what is not given is left out.
pub proof fn law_changes_are_described(request: UpdateSiteRequest)
    ensures
        match request.timezone {
            Some(t) => json::has(request.document(), "timezone"@, json::Json::Text(t@)),
            None => json::lacks(request.document(), "timezone"@),
        },
        match request.public {
            Some(b) => json::has(request.document(), "public"@, json::Json::Bool(b)),
            None => json::lacks(request.document(), "public"@),
        },
        match request.main_site {
            Some(b) => json::has(request.document(), "main_site"@, json::Json::Bool(b)),
            None => json::lacks(request.document(), "main_site"@),
        },
{
    reveal_strlit("timezone");
    reveal_strlit("public");
    reveal_strlit("main_site");
    assert("timezone"@.len() == 8);
    assert("public"@.len() == 6);
    assert("main_site"@.len() == 9);
    let first = text_member("timezone"@, request.timezone.deep_view());
    lemma_text_member(Seq::empty(), "timezone"@, request.timezone.deep_view());
    assert(Seq::empty() + first =~= first);
    lemma_truth_member(first, "public"@, request.public);
    lemma_truth_member(
        first + truth_member("public"@, request.public),
        "main_site"@,
        request.main_site,
    );
}

/// A reset tells the date that is given, and nothing if none is.
pub proof fn law_reset_is_described(request: ResetSiteStatsRequest)
    ensures
        match request.date {
            Some(t) => json::has(request.document(), "date"@, json::Json::Text(t@)),
            None => json::lacks(request.document(), "date"@),
        },
{
    lemma_text_member(Seq::empty(), "date"@, request.date.deep_view());
    let all = text_member("date"@, request.date.deep_view());
    assert(Seq::empty() + all =~= all);
}

/// A key that is blank makes no client, whatever the base URL is; any other is the key of the client
/// as it is given, and the client introduces itself by its name and version.
pub proof fn law_blank_key_makes_no_client(
    outcome: Result<PlausibleClient, ClientError>,
    api_key: Seq<char>,
    base_url: Seq<char>,
)
    requires
        PlausibleClient::made(outcome, api_key, base_url),
    ensures
        text::blank(api_key) ==> (outcome matches Err(ClientError::Validation(m)) && m@
            == "api_key cannot be empty"@),
        !text::blank(api_key) ==> (outcome matches Err(e) ==> e is InvalidBaseUrl),
        outcome matches Ok(client) ==> client.key() == api_key && client.agent() == USER_AGENT@,
{
    text::lemma_trimmed_empty(api_key);
}

/// A request is authorised by the key of the client, and goes to the endpoint below its base URL.
pub proof fn law_requests_are_authorised(
    client: PlausibleClient,
    outcome: Result<ApiRequest, ClientError>,
    method: Method,
    fragment: Seq<char>,
    query: Seq<(Seq<char>, Seq<char>)>,
    body: Option<json::Json>,
)
    requires
        client.asks(outcome, method, fragment, query, body),
    ensures
        outcome is Ok <==> url_joined(client.base(), fragment) is Ok,
        outcome matches Ok(request) ==> {
            &&& request.bearer@ == client.key()
            &&& request.method == method
            &&& url_joined(client.base(), fragment) == Ok::<Seq<char>, Seq<char>>(request.url@)
            &&& request.query@.len() == query.len()
            &&& forall|i: int|
                0 <= i < query.len() ==> (#[trigger] request.query@[i]).0@ == query[i].0
                    && request.query@[i].1@ == query[i].1
            &&& request.body is Some <==> body is Some
            &&& request.body matches Some(value) ==> json::content(value) == body->Some_0
        },
{
    if let Ok(request) = outcome {
        assert(param_views(request.query@).len() == request.query@.len());
        assert forall|i: int| 0 <= i < query.len() implies (#[trigger] request.query@[i]).0@
            == query[i].0 && request.query@[i].1@ == query[i].1 by {
            assert(param_views(request.query@)[i] == query[i]);
        }
    }
}

/// A message says what went wrong and then the details, and that of a refused request also says with
/// which status it was refused.
pub proof fn law_messages_tell_the_details(detail: String, status: u16)
    ensures
        ClientError::InvalidBaseUrl(detail).text() == "invalid base URL: "@ + detail@,
        ClientError::InvalidEndpoint(detail).text() == "invalid endpoint: "@ + detail@,
        ClientError::HttpClient(detail).text() == "HTTP client build error: "@ + detail@,
        ClientError::Http(detail).text() == detail@,
        ClientError::Validation(detail).text() == "request validation failed: "@ + detail@,
        (ClientError::Api { status, message: detail }).text() == "API request failed with status "@
            + status_line(status) + ": "@ + detail@,
{
}

/// The path of a base URL ends with a slash: one that does is kept, and any other gets exactly one
/// slash more.
pub proof fn law_base_path_ends_with_a_slash(path: Seq<char>)
    ensures
        path.len() > 0 && path[path.len() - 1] == '/' ==> normal_path(path) is None,
        path.len() == 0 || path[path.len() - 1] != '/' ==> (normal_path(path) matches Some(longer)
            && longer.len() == path.len() + 1 && longer[path.len() as int] == '/'
            && longer.drop_last() == path),
{
}

/// A base URL whose path ends with a slash is kept as it is; any other gets the path with a slash
/// more, and is refused only if it is no URL or too long.
pub proof fn law_base_url_gets_its_slash(url: Seq<char>, path: Seq<char>)
    requires
        url_path(url) == Ok::<Seq<char>, Seq<char>>(path),
    ensures
        path.len() > 0 && path[path.len() - 1] == '/' ==> normal_base(url) == Ok::<
            Seq<char>,
            Seq<char>,
        >(url),
        path.len() == 0 || path[path.len() - 1] != '/' ==> match url_parsed(url) {
            Ok(normal) => {
                &&& countable(normal, path) ==> normal_base(url) == url_with_path(
                    url,
                    path.push('/'),
                )
                &&& !countable(normal, path) ==> normal_base(url) == Err::<Seq<char>, Seq<char>>(
                    "URL is too long"@,
                )
            },
            Err(e) => normal_base(url) == Err::<Seq<char>, Seq<char>>(e),
        },
{
}

/// A URL is not too long as long as it and three characters more can be counted in 32 bits.
pub proof fn law_short_urls_are_countable(url: Seq<char>, path: Seq<char>)
    requires
        url.len() + 3 <= u32::MAX,
    ensures
        countable(url, path),
{
    text::law_span_ends_at_the_first(url, '?', '#');
    text::law_span_ends_at_the_first(url, '#', '#');
}

/// A client for the public instance has the URL `https://plausible.io/` normalised as its base, and
/// introduces itself by the name and version of this program.
pub proof fn law_public_instance_is_plausible_io(
    outcome: Result<PlausibleClient, ClientError>,
    api_key: Seq<char>,
)
    requires
        PlausibleClient::made_from_text(outcome, api_key, DEFAULT_BASE_URL@),
    ensures
        outcome matches Ok(client) ==> {
            &&& url_parsed("https://plausible.io/"@) matches Ok(url)
            &&& normal_base(url) == Ok::<Seq<char>, Seq<char>>(client.base())
            &&& client.key() == api_key
            &&& client.agent() == "plausible-cli/1.0.0"@
        },
        url_parsed("https://plausible.io/"@) matches Err(e) ==> (outcome matches Err(
            ClientError::InvalidBaseUrl(m),
        ) && m@ == e),
{
}

} // verus!
