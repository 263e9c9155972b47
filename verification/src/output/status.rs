//! The budget and the example of an event, as they are printed.

use super::{number_value, print, Output, OutputFormat};
use crate::clock;
use crate::clock::{display_text, Timestamp};
use crate::json;
use crate::json::{moment_value, object_of, pretty_text, push_member, push_text, single, Datum};
use crate::output;
use crate::rate_limit::RateStatus;
use crate::text;
use crate::text::decimal_text;
use crate::Error;
use serde_json::Value;
use vstd::prelude::*;
use vstd::string::*;

verus! {

/// The line on the hourly budget.
pub open spec fn hourly_line(status: RateStatus) -> Seq<char> {
    "Hourly usage: "@ + text::decimal(status.hourly_used as nat) + "/"@ + text::decimal(
        status.hourly_limit as nat,
    ) + " (resets at "@ + clock::displayed(status.hourly_reset_at) + ")"@
}

/// The line on the daily budget.
pub open spec fn daily_line(
    limit: u32,
    used: u32,
    remaining: u32,
    reset_at: Option<Timestamp>,
) -> Seq<char> {
    let usage = "Daily usage: "@ + text::decimal(used as nat) + "/"@ + text::decimal(limit as nat)
        + " (remaining "@ + text::decimal(remaining as nat) + ")"@;
    match reset_at {
        None => usage,
        Some(reset) => usage + " \u{2013} resets at "@ + clock::displayed(reset),
    }
}

/// What is printed of the budget, in words.
pub open spec fn status_lines(status: RateStatus) -> Seq<char> {
    match status.daily_limit {
        None => hourly_line(status),
        Some(limit) => {
            let used = match status.daily_used {
                Some(n) => n,
                None => 0,
            };
            let remaining = match status.daily_remaining {
                Some(n) => n,
                None => crate::rate_limit::floored_difference(limit, used),
            };
            hourly_line(status) + "\n"@ + daily_line(limit, used, remaining, status.daily_reset_at)
        },
    }
}

fn hourly_text(status: &RateStatus) -> (line: String)
    requires
        status.valid(),
    ensures
        line@ == hourly_line(*status),
{
    "Hourly usage: ".to_owned().concat(decimal_text(status.hourly_used as u64).as_str()).concat(
        "/",
    ).concat(decimal_text(status.hourly_limit as u64).as_str()).concat(" (resets at ").concat(
        display_text(status.hourly_reset_at).as_str(),
    ).concat(")")
}

fn daily_text(limit: u32, used: u32, remaining: u32, reset_at: Option<Timestamp>) -> (line: String)
    requires
        reset_at matches Some(t) ==> t.valid(),
    ensures
        line@ == daily_line(limit, used, remaining, reset_at),
{
    let usage = "Daily usage: ".to_owned().concat(decimal_text(used as u64).as_str()).concat(
        "/",
    ).concat(decimal_text(limit as u64).as_str()).concat(" (remaining ").concat(
        decimal_text(remaining as u64).as_str(),
    ).concat(")");
    match reset_at {
        None => usage,
        Some(reset) => usage.concat(" \u{2013} resets at ").concat(display_text(reset).as_str()),
    }
}

/// One window of the budget as a document.
pub open spec fn window_json(
    used: Option<u32>,
    limit: Option<u32>,
    remaining: Option<u32>,
    reset_at: json::Json,
) -> json::Json {
    json::object(
        seq![
            ("used"@, output::number_json(used)),
            ("limit"@, output::number_json(limit)),
            ("remaining"@, output::number_json(remaining)),
            ("reset_at"@, reset_at),
        ],
    )
}

/// A moment, or nothing.
pub open spec fn moment_json(t: Option<Timestamp>) -> json::Json {
    match t {
        Some(t) => json::moment(t),
        None => json::Json::Null,
    }
}

/// The budget as a document.
pub open spec fn status_document(status: RateStatus) -> json::Json {
    json::object(
        seq![
            (
                "hourly"@,
                window_json(
                    Some(status.hourly_used),
                    Some(status.hourly_limit),
                    Some(status.hourly_remaining),
                    moment_json(Some(status.hourly_reset_at)),
                ),
            ),
            (
                "daily"@,
                window_json(
                    status.daily_used,
                    status.daily_limit,
                    status.daily_remaining,
                    moment_json(status.daily_reset_at),
                ),
            ),
        ],
    )
}

fn window_value(
    used: Option<u32>,
    limit: Option<u32>,
    remaining: Option<u32>,
    reset_at: Option<Timestamp>,
) -> (value: Value)
    requires
        reset_at matches Some(t) ==> t.valid(),
    ensures
        json::content(value) == window_json(used, limit, remaining, moment_json(reset_at)),
{
    let reset = match reset_at {
        Some(t) => moment_value(t),
        None => single(Datum::Null),
    };
    let mut list: Vec<(String, Value)> = Vec::new();
    push_member(&mut list, "used", number_value(used));
    push_member(&mut list, "limit", number_value(limit));
    push_member(&mut list, "remaining", number_value(remaining));
    push_member(&mut list, "reset_at", reset);
    assert(json::member_contents(list@) =~= seq![
        ("used"@, output::number_json(used)),
        ("limit"@, output::number_json(limit)),
        ("remaining"@, output::number_json(remaining)),
        ("reset_at"@, moment_json(reset_at)),
    ]);
    object_of(list)
}

fn status_value(status: &RateStatus) -> (value: Value)
    requires
        status.valid(),
    ensures
        json::content(value) == status_document(*status),
{
    let hourly = window_value(
        Some(status.hourly_used),
        Some(status.hourly_limit),
        Some(status.hourly_remaining),
        Some(status.hourly_reset_at),
    );
    let daily = window_value(
        status.daily_used,
        status.daily_limit,
        status.daily_remaining,
        status.daily_reset_at,
    );
    let mut list: Vec<(String, Value)> = Vec::new();
    push_member(&mut list, "hourly", hourly);
    push_member(&mut list, "daily", daily);
    assert(json::member_contents(list@) =~= seq![
        ("hourly"@, json::content(hourly)),
        ("daily"@, json::content(daily)),
    ]);
    object_of(list)
}

/// Prints the budget.
pub fn render_status(status: &RateStatus, format: OutputFormat) -> (outcome: Result<Output, Error>)
    requires
        status.valid(),
    ensures
        output::tells(outcome, format, status_lines(*status), status_document(*status)),
{
    match format {
        OutputFormat::Human => {
            let hourly = hourly_text(status);
            let lines = match status.daily_limit {
                None => hourly,
                Some(limit) => {
                    let used: u32 = match status.daily_used {
                        Some(n) => n,
                        None => 0,
                    };
                    let remaining: u32 = match status.daily_remaining {
                        Some(n) => n,
                        None => limit.saturating_sub(used),
                    };
                    let daily = daily_text(limit, used, remaining, status.daily_reset_at);
                    hourly.concat("\n").concat(daily.as_str())
                },
            };
            Ok(Output::Text(lines))
        },
        OutputFormat::Json => print(&status_value(status)),
    }
}

/// An example of an event.
pub open spec fn sample_event() -> json::Json {
    json::object(
        seq![
            ("name"@, json::Json::Text("Signup"@)),
            ("url"@, json::Json::Text("https://example.com/signup"@)),
            ("domain"@, json::Json::Text("example.com"@)),
            ("referrer"@, json::Json::Text("https://google.com"@)),
            ("utm_source"@, json::Json::Text("newsletter"@)),
            ("utm_medium"@, json::Json::Text("email"@)),
            ("device_type"@, json::Json::Text("desktop"@)),
        ],
    )
}

/// Makes an example of an event.
pub fn event_template() -> (sample: Value)
    ensures
        json::content(sample) == sample_event(),
{
    let mut list: Vec<(String, Value)> = Vec::new();
    push_text(&mut list, "name", "Signup");
    push_text(&mut list, "url", "https://example.com/signup");
    push_text(&mut list, "domain", "example.com");
    push_text(&mut list, "referrer", "https://google.com");
    push_text(&mut list, "utm_source", "newsletter");
    push_text(&mut list, "utm_medium", "email");
    push_text(&mut list, "device_type", "desktop");
    assert(json::member_contents(list@) =~= seq![
        ("name"@, json::Json::Text("Signup"@)),
        ("url"@, json::Json::Text("https://example.com/signup"@)),
        ("domain"@, json::Json::Text("example.com"@)),
        ("referrer"@, json::Json::Text("https://google.com"@)),
        ("utm_source"@, json::Json::Text("newsletter"@)),
        ("utm_medium"@, json::Json::Text("email"@)),
        ("device_type"@, json::Json::Text("desktop"@)),
    ]);
    object_of(list)
}

/// Prints an example of an event.
pub fn render_event_template(format: OutputFormat) -> (outcome: Result<Output, Error>)
    ensures
        match format {
            OutputFormat::Human => match json::pretty(sample_event()) {
                Ok(text) => outcome matches Ok(output) && output.says(
                    "Sample event payload:\n"@ + text,
                ),
                Err(e) => outcome matches Err(Error::Serialization(m)) && m@ == e,
            },
            OutputFormat::Json => output::prints(outcome, sample_event()),
        },
{
    let sample = event_template();
    match format {
        OutputFormat::Human => match pretty_text(&sample) {
            Ok(text) => Ok(
                Output::Text("Sample event payload:\n".to_owned().concat(text.as_str())),
            ),
            Err(e) => Err(Error::Serialization(e)),
        },
        OutputFormat::Json => print(&sample),
    }
}

/// What a document says of an optional number: its digits, or nothing.
spec fn figure(n: Option<u32>) -> json::Json {
    match n {
        Some(n) => json::Json::Number(text::decimal(n as nat)),
        None => json::Json::Null,
    }
}

proof fn lemma_window_members(
    used: Option<u32>,
    limit: Option<u32>,
    remaining: Option<u32>,
    reset_at: json::Json,
)
    ensures
        json::has(window_json(used, limit, remaining, reset_at), "used"@, figure(used)),
        json::has(window_json(used, limit, remaining, reset_at), "limit"@, figure(limit)),
        json::has(window_json(used, limit, remaining, reset_at), "remaining"@, figure(remaining)),
        json::has(window_json(used, limit, remaining, reset_at), "reset_at"@, reset_at),
{
    reveal_strlit("used");
    reveal_strlit("limit");
    reveal_strlit("remaining");
    reveal_strlit("reset_at");
    let list = seq![
        ("used"@, output::number_json(used)),
        ("limit"@, output::number_json(limit)),
        ("remaining"@, output::number_json(remaining)),
        ("reset_at"@, reset_at),
    ];
    assert(list[0].0 == "used"@ && list[1].0 == "limit"@);
    assert(list[2].0 == "remaining"@ && list[3].0 == "reset_at"@);
    assert("used"@.len() == 4 && "limit"@.len() == 5);
    assert("remaining"@.len() == 9 && "reset_at"@.len() == 8);
    json::law_object_has_its_members(list);
}

/// The document on the budget tells of each window, under the names `used`, `limit`, `remaining`
/// and `reset_at`, what the status says of that window, and null where it says nothing.
pub proof fn law_status_document_tells_each_figure(status: RateStatus)
    ensures
        status_document(status) matches json::Json::Object(windows) && {
            &&& windows.contains_key("hourly"@)
            &&& windows.contains_key("daily"@)
            &&& json::has(
                windows["hourly"@],
                "used"@,
                json::Json::Number(text::decimal(status.hourly_used as nat)),
            )
            &&& json::has(
                windows["hourly"@],
                "limit"@,
                json::Json::Number(text::decimal(status.hourly_limit as nat)),
            )
            &&& json::has(
                windows["hourly"@],
                "remaining"@,
                json::Json::Number(text::decimal(status.hourly_remaining as nat)),
            )
            &&& json::has(
                windows["hourly"@],
                "reset_at"@,
                json::moment(status.hourly_reset_at),
            )
            &&& json::has(
                windows["daily"@],
                "used"@,
                match status.daily_used {
                    Some(n) => json::Json::Number(text::decimal(n as nat)),
                    None => json::Json::Null,
                },
            )
            &&& json::has(
                windows["daily"@],
                "limit"@,
                match status.daily_limit {
                    Some(n) => json::Json::Number(text::decimal(n as nat)),
                    None => json::Json::Null,
                },
            )
            &&& json::has(
                windows["daily"@],
                "remaining"@,
                match status.daily_remaining {
                    Some(n) => json::Json::Number(text::decimal(n as nat)),
                    None => json::Json::Null,
                },
            )
            &&& json::has(
                windows["daily"@],
                "reset_at"@,
                match status.daily_reset_at {
                    Some(t) => json::moment(t),
                    None => json::Json::Null,
                },
            )
        },
{
    reveal_strlit("hourly");
    reveal_strlit("daily");
    lemma_window_members(
        Some(status.hourly_used),
        Some(status.hourly_limit),
        Some(status.hourly_remaining),
        moment_json(Some(status.hourly_reset_at)),
    );
    lemma_window_members(
        status.daily_used,
        status.daily_limit,
        status.daily_remaining,
        moment_json(status.daily_reset_at),
    );
    let list = seq![
        (
            "hourly"@,
            window_json(
                Some(status.hourly_used),
                Some(status.hourly_limit),
                Some(status.hourly_remaining),
                moment_json(Some(status.hourly_reset_at)),
            ),
        ),
        (
            "daily"@,
            window_json(
                status.daily_used,
                status.daily_limit,
                status.daily_remaining,
                moment_json(status.daily_reset_at),
            ),
        ),
    ];
    assert(list[0].0 == "hourly"@ && list[1].0 == "daily"@);
    assert("hourly"@.len() != "daily"@.len());
    json::law_object_has_its_members(list);
}

/// In words, the budget is told hour first: what is used of what may be used, and when the count
/// starts anew. A second line tells the same of the day, with what remains, if there is a daily
/// limit.
pub proof fn law_status_lines_tell_each_figure(status: RateStatus)
    ensures
        status.daily_limit is None ==> status_lines(status) == "Hourly usage: "@ + text::decimal(
            status.hourly_used as nat,
        ) + "/"@ + text::decimal(status.hourly_limit as nat) + " (resets at "@
            + clock::displayed(status.hourly_reset_at) + ")"@,
        forall|limit: u32, used: u32, left: u32|
            status.daily_limit == Some(limit) && status.daily_used == Some(used)
                && status.daily_remaining == Some(left) ==> status_lines(status)
                == "Hourly usage: "@ + text::decimal(status.hourly_used as nat) + "/"@
                + text::decimal(status.hourly_limit as nat) + " (resets at "@
                + clock::displayed(status.hourly_reset_at) + ")"@ + "\n"@ + (
            "Daily usage: "@ + #[trigger] text::decimal(used as nat) + "/"@
                + #[trigger] text::decimal(limit as nat) + " (remaining "@
                + #[trigger] text::decimal(left as nat) + ")"@ + match status.daily_reset_at {
                Some(reset) => " \u{2013} resets at "@ + clock::displayed(reset),
                None => Seq::empty(),
            }),
{
    if let (Some(limit), Some(used), Some(left)) = (
        status.daily_limit,
        status.daily_used,
        status.daily_remaining,
    ) {
        let usage = "Daily usage: "@ + text::decimal(used as nat) + "/"@ + text::decimal(
            limit as nat,
        ) + " (remaining "@ + text::decimal(left as nat) + ")"@;
        assert(usage + Seq::empty() =~= usage);
        if let Some(reset) = status.daily_reset_at {
            assert(usage + " \u{2013} resets at "@ + clock::displayed(reset) =~= usage + (
            " \u{2013} resets at "@ + clock::displayed(reset)));
        }
    }
}

/// The example of an event is the sign-up of a visitor, as an object that can be sent.
pub proof fn law_sample_event_can_be_sent()
    ensures
        json::has(sample_event(), "name"@, json::Json::Text("Signup"@)),
        json::has(sample_event(), "url"@, json::Json::Text("https://example.com/signup"@)),
        json::has(sample_event(), "domain"@, json::Json::Text("example.com"@)),
        json::has(sample_event(), "referrer"@, json::Json::Text("https://google.com"@)),
        json::has(sample_event(), "utm_source"@, json::Json::Text("newsletter"@)),
        json::has(sample_event(), "utm_medium"@, json::Json::Text("email"@)),
        json::has(sample_event(), "device_type"@, json::Json::Text("desktop"@)),
{
    reveal_strlit("name");
    reveal_strlit("url");
    reveal_strlit("domain");
    reveal_strlit("referrer");
    reveal_strlit("utm_source");
    reveal_strlit("utm_medium");
    reveal_strlit("device_type");
    let list = seq![
        ("name"@, json::Json::Text("Signup"@)),
        ("url"@, json::Json::Text("https://example.com/signup"@)),
        ("domain"@, json::Json::Text("example.com"@)),
        ("referrer"@, json::Json::Text("https://google.com"@)),
        ("utm_source"@, json::Json::Text("newsletter"@)),
        ("utm_medium"@, json::Json::Text("email"@)),
        ("device_type"@, json::Json::Text("desktop"@)),
    ];
    assert(list[0].0 == "name"@);
    assert(list[1].0 == "url"@);
    assert(list[2].0 == "domain"@);
    assert(list[3].0 == "referrer"@);
    assert(list[4].0 == "utm_source"@);
    assert(list[5].0 == "utm_medium"@);
    assert(list[6].0 == "device_type"@);
    assert("name"@.len() == 4);
    assert("url"@.len() == 3);
    assert("domain"@.len() == 6);
    assert("referrer"@.len() == 8);
    assert("utm_source"@.len() == 10 && "utm_source"@[4] == 's');
    assert("utm_medium"@.len() == 10 && "utm_medium"@[4] == 'm');
    assert("device_type"@.len() == 11);
    json::law_object_has_its_members(list);
}

} // verus!
