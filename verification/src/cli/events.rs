//! Custom events: where they are read from, and what is made of what was read.

use super::{EventImportArgs, EventSendArgs};
use crate::json;
use crate::json::{apply_domain_override, parse};
use crate::text;
use crate::Error;
use serde_json::Value;
use std::path::PathBuf;
use vstd::prelude::*;
use vstd::string::*;

verus! {

/// Where events are read from.
#[derive(Debug)]
pub enum PayloadSource {
    /// The text is given.
    Inline(String),
    File(PathBuf),
    Stdin,
}

/// How many of some things are so.
pub open spec fn count(a: bool, b: bool, c: bool) -> int {
    (if a { 1int } else { 0 }) + (if b { 1int } else { 0 }) + (if c { 1int } else { 0 })
}

/// Whether an error says that an input is invalid, and why.
pub open spec fn invalid(error: Error, reason: Seq<char>) -> bool {
    error matches Error::InvalidInput(m) && m@ == reason
}

/// Where the event of a command is read from. Exactly one place has to be given.
pub fn event_source(args: &EventSendArgs) -> (outcome: Result<PayloadSource, Error>)
    ensures
        ({
            let given = count(args.data is Some, args.file is Some, args.stdin);
            &&& given == 0 ==> (outcome matches Err(e) && invalid(
                e,
                "provide one of --data, --file, or --stdin for events send"@,
            ))
            &&& given > 1 ==> (outcome matches Err(e) && invalid(
                e,
                "choose only one of --data, --file, or --stdin for events send"@,
            ))
            &&& given == 1 ==> match args.data {
                Some(data) => outcome matches Ok(PayloadSource::Inline(d)) && d@ == data@,
                None => match args.file {
                    Some(path) => outcome matches Ok(PayloadSource::File(p)) && p == path,
                    None => outcome matches Ok(PayloadSource::Stdin),
                },
            }
        }),
{
    match (&args.data, &args.file, args.stdin) {
        (None, None, false) => Err(
            Error::InvalidInput(
                "provide one of --data, --file, or --stdin for events send".to_owned(),
            ),
        ),
        (Some(data), None, false) => Ok(PayloadSource::Inline(data.clone())),
        (None, Some(path), false) => Ok(PayloadSource::File(path.clone())),
        (None, None, true) => Ok(PayloadSource::Stdin),
        _ => Err(
            Error::InvalidInput(
                "choose only one of --data, --file, or --stdin for events send".to_owned(),
            ),
        ),
    }
}

/// Where the events of an import are read from. Exactly one place has to be given.
pub fn import_source(args: &EventImportArgs) -> (outcome: Result<PayloadSource, Error>)
    ensures
        ({
            let given = count(args.file is Some, args.stdin, false);
            &&& given == 0 ==> (outcome matches Err(e) && invalid(
                e,
                "provide --file or --stdin for events import"@,
            ))
            &&& given > 1 ==> (outcome matches Err(e) && invalid(
                e,
                "choose either --file or --stdin for events import"@,
            ))
            &&& given == 1 ==> match args.file {
                Some(path) => outcome matches Ok(PayloadSource::File(p)) && p == path,
                None => outcome matches Ok(PayloadSource::Stdin),
            }
        }),
{
    match (&args.file, args.stdin) {
        (None, false) => Err(
            Error::InvalidInput("provide --file or --stdin for events import".to_owned()),
        ),
        (Some(path), false) => Ok(PayloadSource::File(path.clone())),
        (None, true) => Ok(PayloadSource::Stdin),
        (Some(_), true) => Err(
            Error::InvalidInput("choose either --file or --stdin for events import".to_owned()),
        ),
    }
}

/// The event that a value makes, if it is an object: it gets the domain, if there is one.
pub open spec fn event_from(value: json::Json, domain: Option<Seq<char>>) -> Option<json::Json> {
    if value is Object {
        Some(json::with_domain(value, domain))
    } else {
        None
    }
}

/// What a value that was parsed, or the message of the error that it was not, says.
pub open spec fn reading(parsed: Result<Value, String>) -> Result<json::Json, Seq<char>> {
    match parsed {
        Ok(value) => Ok(json::content(value)),
        Err(e) => Err(e@),
    }
}

/// Whether an outcome is the event that a parsed text makes.
pub open spec fn accepts(
    outcome: Result<Value, Error>,
    parsed: Result<json::Json, Seq<char>>,
    domain: Option<Seq<char>>,
) -> bool {
    match parsed {
        Err(e) => outcome matches Err(Error::Serialization(m)) && m@ == e,
        Ok(value) => match event_from(value, domain) {
            None => outcome matches Err(e) && invalid(e, "event payload must be a JSON object"@),
            Some(event) => outcome matches Ok(v) && json::content(v) == event,
        },
    }
}

/// Makes an event of a parsed text: it has to be an object, and gets the given domain.
pub fn accept_event(parsed: Result<Value, String>, domain: &Option<String>) -> (outcome: Result<
    Value,
    Error,
>)
    ensures
        accepts(outcome, reading(parsed), domain.deep_view()),
{
    match parsed {
        Err(e) => Err(Error::Serialization(e)),
        Ok(value) => {
            if !value.is_object() {
                return Err(Error::InvalidInput("event payload must be a JSON object".to_owned()));
            }
            let mut event = value;
            apply_domain_override(&mut event, domain);
            Ok(event)
        },
    }
}

/// Whether an outcome is the event that a text holds: a blank text holds none.
pub open spec fn reads_event(
    outcome: Result<Value, Error>,
    contents: Seq<char>,
    domain: Option<Seq<char>>,
) -> bool {
    if text::trimmed(contents).len() == 0 {
        outcome matches Err(e) && invalid(e, "event payload is empty"@)
    } else {
        accepts(outcome, json::parsed(text::trimmed(contents)), domain)
    }
}

/// Reads an event from a text.
pub fn parse_event_json(contents: &str, domain: &Option<String>) -> (outcome: Result<Value, Error>)
    ensures
        reads_event(outcome, contents@, domain.deep_view()),
{
    let trimmed = text::trim(contents);
    if trimmed.as_str().is_empty() {
        return Err(Error::InvalidInput("event payload is empty".to_owned()));
    }
    accept_event(parse(trimmed.as_str()), domain)
}

/// Why a line of an import is refused: it is not JSON, or no object.
pub open spec fn line_fault(parsed: Result<json::Json, Seq<char>>, number: nat) -> Option<Seq<char>> {
    match parsed {
        Err(e) => Some("failed to parse line "@ + text::decimal(number) + ": "@ + e),
        Ok(value) => if value is Object {
            None
        } else {
            Some("line "@ + text::decimal(number) + " must be a JSON object"@)
        },
    }
}

/// Makes an event of a parsed line: it has to be an object, and gets the given domain.
pub fn accept_line(number: usize, parsed: Result<Value, String>, domain: &Option<String>) -> (outcome:
    Result<Value, Error>)
    ensures
        match line_fault(reading(parsed), number as nat) {
            Some(fault) => outcome matches Err(e) && invalid(e, fault),
            None => outcome matches Ok(v) && json::content(v) == json::with_domain(
                reading(parsed)->Ok_0,
                domain.deep_view(),
            ),
        },
{
    match parsed {
        Err(e) => Err(
            Error::InvalidInput(
                "failed to parse line ".to_owned().concat(
                    text::decimal_text(number as u64).as_str(),
                ).concat(": ").concat(e.as_str()),
            ),
        ),
        Ok(value) => {
            if !value.is_object() {
                return Err(
                    Error::InvalidInput(
                        "line ".to_owned().concat(
                            text::decimal_text(number as u64).as_str(),
                        ).concat(" must be a JSON object"),
                    ),
                );
            }
            let mut event = value;
            apply_domain_override(&mut event, domain);
            Ok(event)
        },
    }
}

/// The events of an import: one for each line that is not blank, up to the first line that is
/// refused. The lines are counted from one.
pub open spec fn imported(lines: Seq<Seq<char>>, domain: Option<Seq<char>>) -> Result<
    Seq<json::Json>,
    Seq<char>,
>
    decreases lines.len(),
{
    if lines.len() == 0 {
        Ok(Seq::empty())
    } else {
        let line = text::trimmed(lines.last());
        match imported(lines.drop_last(), domain) {
            Err(fault) => Err(fault),
            Ok(events) => if line.len() == 0 {
                Ok(events)
            } else {
                match line_fault(json::parsed(line), lines.len()) {
                    Some(fault) => Err(fault),
                    None => Ok(
                        events.push(json::with_domain(json::parsed(line)->Ok_0, domain)),
                    ),
                }
            },
        }
    }
}

/// A fault in the first lines is the fault of all lines.
proof fn lemma_first_fault(lines: Seq<Seq<char>>, domain: Option<Seq<char>>, n: int)
    requires
        0 <= n <= lines.len(),
        imported(lines.take(n), domain) is Err,
    ensures
        imported(lines, domain) == imported(lines.take(n), domain),
    decreases lines.len() - n,
{
    if n < lines.len() {
        assert(lines.take(n + 1).drop_last() =~= lines.take(n));
        lemma_first_fault(lines, domain, n + 1);
    } else {
        assert(lines.take(n) =~= lines);
    }
}

/// Whether an outcome is the events that a text holds, one per line. There has to be at least one.
pub open spec fn reads_events(
    outcome: Result<Vec<Value>, Error>,
    contents: Seq<char>,
    domain: Option<Seq<char>>,
) -> bool {
    match imported(text::lines(contents), domain) {
        Err(fault) => outcome matches Err(e) && invalid(e, fault),
        Ok(events) => if events.len() == 0 {
            outcome matches Err(e) && invalid(e, "no events found in input"@)
        } else {
            outcome matches Ok(list) && json::contents(list@) == events
        },
    }
}

/// Reads events from a text that holds one per line. There has to be at least one.
pub fn parse_ndjson(contents: &str, domain: &Option<String>) -> (outcome: Result<Vec<Value>, Error>)
    ensures
        reads_events(outcome, contents@, domain.deep_view()),
{
    let lines = text::split_lines(contents);
    let ghost all = text::lines(contents@);
    let ghost wanted = domain.deep_view();
    let mut events: Vec<Value> = Vec::new();
    assert(json::contents(events@) =~= Seq::empty());
    assert(all.take(0) =~= Seq::empty());
    let mut i: usize = 0;
    while i < lines.len()
        invariant
            i <= lines@.len(),
            text::views(lines@) == all,
            all == text::lines(contents@),
            wanted == domain.deep_view(),
            imported(all.take(i as int), wanted) == Ok::<_, Seq<char>>(json::contents(events@)),
        decreases lines@.len() - i,
    {
        let line = text::trim(lines[i].as_str());
        proof {
            assert(all.take(i + 1).drop_last() =~= all.take(i as int));
            assert(all.take(i + 1).last() == lines@[i as int]@);
        }
        if !line.as_str().is_empty() {
            match accept_line(i + 1, parse(line.as_str()), domain) {
                Ok(event) => {
                    let ghost before = json::contents(events@);
                    events.push(event);
                    assert(json::contents(events@) =~= before.push(json::content(event)));
                },
                Err(e) => {
                    proof {
                        lemma_first_fault(all, wanted, i + 1);
                    }
                    return Err(e);
                },
            }
        }
        i = i + 1;
    }
    assert(all.take(i as int) =~= all);
    if events.len() == 0 {
        return Err(Error::InvalidInput("no events found in input".to_owned()));
    }
    Ok(events)
}

/// Makes an event of what came of reading it.
pub fn load_event_payload(args: &EventSendArgs, read: Result<String, String>) -> (outcome: Result<
    Value,
    Error,
>)
    ensures
        match read {
            Err(failure) => outcome == Err::<Value, _>(Error::Runtime(failure)),
            Ok(raw) => reads_event(outcome, raw@, args.domain.deep_view()),
        },
{
    match read {
        Err(failure) => Err(Error::Runtime(failure)),
        Ok(raw) => parse_event_json(raw.as_str(), &args.domain),
    }
}

/// Makes events of what came of reading them.
pub fn load_import_payload(args: &EventImportArgs, read: Result<String, String>) -> (outcome: Result<
    Vec<Value>,
    Error,
>)
    ensures
        match read {
            Err(failure) => outcome == Err::<Vec<Value>, _>(Error::Runtime(failure)),
            Ok(raw) => reads_events(outcome, raw@, args.domain.deep_view()),
        },
        outcome matches Ok(list) ==> list@.len() > 0,
{
    match read {
        Err(failure) => Err(Error::Runtime(failure)),
        Ok(raw) => parse_ndjson(raw.as_str(), &args.domain),
    }
}

/// How many lines are not blank.
pub open spec fn filled(lines: Seq<Seq<char>>) -> nat
    decreases lines.len(),
{
    if lines.len() == 0 {
        0
    } else if text::trimmed(lines.last()).len() == 0 {
        filled(lines.drop_last())
    } else {
        filled(lines.drop_last()) + 1
    }
}

/// An import that is accepted holds exactly one event for each line that is not blank, and each of
/// them is an object.
pub proof fn law_import_holds_one_event_per_line(lines: Seq<Seq<char>>, domain: Option<Seq<char>>)
    ensures
        imported(lines, domain) matches Ok(events) ==> {
            &&& events.len() == filled(lines)
            &&& forall|i: int| 0 <= i < events.len() ==> #[trigger] events[i] is Object
        },
    decreases lines.len(),
{
    if lines.len() > 0 {
        law_import_holds_one_event_per_line(lines.drop_last(), domain);
    }
}

/// A domain that is asked for ends up in every event of an import.
pub proof fn law_import_sets_every_domain(lines: Seq<Seq<char>>, domain: Seq<char>)
    ensures
        imported(lines, Some(domain)) matches Ok(events) ==> forall|i: int|
            #![trigger events[i]]
            0 <= i < events.len() ==> {
                &&& events[i] is Object
                &&& events[i]->Object_0.contains_key("domain"@)
                &&& events[i]->Object_0["domain"@] == json::Json::Text(domain)
            },
    decreases lines.len(),
{
    if lines.len() > 0 {
        law_import_sets_every_domain(lines.drop_last(), domain);
    }
}

/// Setting the domain of an event leaves its other members alone, and without a domain to set the
/// event stays as it is.
pub proof fn law_domain_is_all_that_changes(
    members: Map<Seq<char>, json::Json>,
    domain: Option<Seq<char>>,
    name: Seq<char>,
)
    requires
        name != "domain"@,
    ensures
        json::with_domain(json::Json::Object(members), domain) is Object,
        ({
            let after = json::with_domain(json::Json::Object(members), domain)->Object_0;
            &&& after.contains_key(name) == members.contains_key(name)
            &&& members.contains_key(name) ==> after[name] == members[name]
            &&& domain is None ==> after == members
        }),
{
}

/// Blank lines at the end of an import change nothing.
pub proof fn law_blank_lines_are_skipped(
    lines: Seq<Seq<char>>,
    blank: Seq<char>,
    domain: Option<Seq<char>>,
)
    requires
        text::blank(blank),
    ensures
        imported(lines.push(blank), domain) == imported(lines, domain),
{
    text::lemma_trimmed_empty(blank);
    assert(lines.push(blank).drop_last() =~= lines);
}

/// A line that is refused makes the whole import fail with its own fault, whatever follows, unless
/// an earlier line was refused already.
pub proof fn law_first_fault_wins(
    lines: Seq<Seq<char>>,
    domain: Option<Seq<char>>,
    line: Seq<char>,
    rest: Seq<Seq<char>>,
)
    ensures
        ({
            let fault = line_fault(json::parsed(text::trimmed(line)), lines.len() + 1);
            let outcome = imported(lines.push(line) + rest, domain);
            &&& imported(lines, domain) is Ok && text::trimmed(line).len() > 0 && fault is Some
                ==> outcome == Err::<Seq<json::Json>, _>(fault->Some_0)
            &&& imported(lines, domain) is Err ==> outcome == imported(lines, domain)
        }),
{
    let all = lines.push(line) + rest;
    let n = lines.len() as int;
    assert(lines.push(line).drop_last() =~= lines);
    assert(all.take(n) =~= lines);
    assert(all.take(n + 1) =~= lines.push(line));
    if imported(lines, domain) is Err {
        lemma_first_fault(all, domain, n);
    } else if imported(lines.push(line), domain) is Err {
        lemma_first_fault(all, domain, n + 1);
    }
}

/// Whether an event is a value that was parsed, but for its domain: both are objects, every member of
/// another name than `domain` is the same in both, and the domain is the text that was asked for, or
/// that of the value if none was.
pub open spec fn is_value_but_for_domain(
    event: json::Json,
    value: json::Json,
    domain: Option<Seq<char>>,
) -> bool {
    &&& value matches json::Json::Object(before)
    &&& event matches json::Json::Object(after)
    &&& forall|name: Seq<char>|
        #![trigger after.contains_key(name)]
        #![trigger before.contains_key(name)]
        name != "domain"@ ==> {
            &&& after.contains_key(name) == before.contains_key(name)
            &&& before.contains_key(name) ==> after[name] == before[name]
        }
    &&& match domain {
        Some(d) => after.contains_key("domain"@) && after["domain"@] == json::Json::Text(d),
        None => after == before,
    }
}

/// Every line of an import that is accepted and is not blank is an event of its own: as many events
/// come before it as lines that are not blank, and it is the object that the line denotes, but for
/// the domain that was asked for.
pub proof fn law_each_line_is_its_own_event(
    lines: Seq<Seq<char>>,
    domain: Option<Seq<char>>,
    i: int,
)
    requires
        0 <= i < lines.len(),
        !text::blank(lines[i]),
    ensures
        imported(lines, domain) matches Ok(events) ==> {
            &&& filled(lines.take(i)) < events.len()
            &&& json::parsed(text::trimmed(lines[i])) matches Ok(value)
            &&& is_value_but_for_domain(events[filled(lines.take(i)) as int], value, domain)
        },
    decreases lines.len(),
{
    let init = lines.drop_last();
    text::lemma_trimmed_empty(lines[i]);
    law_import_holds_one_event_per_line(init, domain);
    if i < init.len() {
        assert(init[i] == lines[i]);
        assert(init.take(i) =~= lines.take(i));
        law_each_line_is_its_own_event(init, domain, i);
    } else {
        assert(lines.take(i) =~= init);
    }
}

/// A line that is not blank and denotes no object makes an import fail, wherever it stands, and an
/// import whose lines are all blank or objects succeeds.
pub proof fn law_import_succeeds_on_objects_only(lines: Seq<Seq<char>>, domain: Option<Seq<char>>)
    ensures
        imported(lines, domain) is Ok <==> forall|i: int|
            0 <= i < lines.len() && !text::blank(#[trigger] lines[i]) ==> (json::parsed(
                text::trimmed(lines[i]),
            ) matches Ok(value) && value is Object),
    decreases lines.len(),
{
    if lines.len() > 0 {
        let init = lines.drop_last();
        law_import_succeeds_on_objects_only(init, domain);
        text::lemma_trimmed_empty(lines.last());
        assert(lines.last() == lines[lines.len() - 1]);
        assert forall|i: int| 0 <= i < init.len() implies #[trigger] init[i] == lines[i] by {}
        if imported(lines, domain) is Ok {
            assert forall|i: int| 0 <= i < lines.len() && !text::blank(#[trigger] lines[i]) implies (
            json::parsed(text::trimmed(lines[i])) matches Ok(value) && value is Object) by {
                if i < init.len() {
                    assert(init[i] == lines[i]);
                }
            }
        }
    }
}

/// Whether the events of an import are refused or not does not depend on the domain that is asked
/// for, and neither does their number.
pub proof fn law_domain_decides_nothing_else(
    lines: Seq<Seq<char>>,
    domain: Option<Seq<char>>,
    other: Option<Seq<char>>,
)
    ensures
        imported(lines, domain) is Err ==> imported(lines, other) == imported(lines, domain),
        imported(lines, domain) matches Ok(events) ==> (imported(lines, other) matches Ok(same)
            && same.len() == events.len()),
    decreases lines.len(),
{
    if lines.len() > 0 {
        law_domain_decides_nothing_else(lines.drop_last(), domain, other);
    }
}

/// A refused line is named by its number, counted from one, and the reason: it is not JSON, with the
/// message of the parser, or it is no object.
pub proof fn law_refused_line_is_named(parsed: Result<json::Json, Seq<char>>, number: nat)
    ensures
        parsed matches Err(e) ==> line_fault(parsed, number) == Some(
            "failed to parse line "@ + text::decimal(number) + ": "@ + e,
        ),
        parsed matches Ok(value) && value !is Object ==> line_fault(parsed, number) == Some(
            "line "@ + text::decimal(number) + " must be a JSON object"@,
        ),
        parsed matches Ok(json::Json::Object(_)) ==> line_fault(parsed, number) is None,
{
}

/// An event that is accepted is the object that was parsed, but for the domain that was asked for. A
/// text that cannot be parsed is refused with the message of the parser, and a value that is no
/// object because it is none.
pub proof fn law_event_is_what_was_parsed(
    outcome: Result<Value, Error>,
    parsed: Result<json::Json, Seq<char>>,
    domain: Option<Seq<char>>,
)
    requires
        accepts(outcome, parsed, domain),
    ensures
        outcome is Ok <==> parsed matches Ok(json::Json::Object(_)),
        outcome matches Ok(event) ==> (parsed matches Ok(value) && is_value_but_for_domain(
            json::content(event),
            value,
            domain,
        )),
        parsed matches Err(e) ==> (outcome matches Err(Error::Serialization(m)) && m@ == e),
        parsed matches Ok(value) && value !is Object ==> (outcome matches Err(
            Error::InvalidInput(m),
        ) && m@ == "event payload must be a JSON object"@),
{
}

/// An event is read from a text that is not blank, without the white space around it; a blank text
/// is refused because it is empty.
pub proof fn law_event_is_read_from_its_text(
    outcome: Result<Value, Error>,
    contents: Seq<char>,
    domain: Option<Seq<char>>,
)
    requires
        reads_event(outcome, contents, domain),
    ensures
        text::blank(contents) ==> (outcome matches Err(Error::InvalidInput(m)) && m@
            == "event payload is empty"@),
        !text::blank(contents) ==> {
            &&& outcome is Ok <==> (json::parsed(text::trimmed(contents)) matches Ok(
                json::Json::Object(_),
            ))
            &&& outcome matches Ok(event) ==> is_value_but_for_domain(
                json::content(event),
                json::parsed(text::trimmed(contents))->Ok_0,
                domain,
            )
        },
{
    text::lemma_trimmed_empty(contents);
}

/// Events are read from the lines of a text: as many as there are lines that are not blank, in their
/// order, each the object that its line denotes, but for the domain that was asked for. A text of
/// blank lines is refused because it holds no events.
pub proof fn law_events_are_read_from_their_lines(
    outcome: Result<Vec<Value>, Error>,
    contents: Seq<char>,
    domain: Option<Seq<char>>,
    i: int,
)
    requires
        reads_events(outcome, contents, domain),
        0 <= i < text::lines(contents).len(),
    ensures
        outcome matches Ok(events) ==> {
            let lines = text::lines(contents);
            &&& events@.len() == filled(lines)
            &&& !text::blank(lines[i]) ==> {
                &&& filled(lines.take(i)) < events@.len()
                &&& json::parsed(text::trimmed(lines[i])) matches Ok(value)
                &&& is_value_but_for_domain(
                    json::content(events@[filled(lines.take(i)) as int]),
                    value,
                    domain,
                )
            }
        },
        outcome is Ok ==> filled(text::lines(contents)) > 0,
        outcome is Ok ==> !text::blank(text::lines(contents)[i]) ==> (json::parsed(
            text::trimmed(text::lines(contents)[i]),
        ) matches Ok(value) && value is Object),
        filled(text::lines(contents)) == 0 ==> (outcome matches Err(Error::InvalidInput(m)) && m@
            == "no events found in input"@),
{
    let lines = text::lines(contents);
    law_import_holds_one_event_per_line(lines, domain);
    law_import_succeeds_on_objects_only(lines, domain);
    if filled(lines) == 0 {
        lemma_nothing_filled(lines);
    }
    if !text::blank(lines[i]) {
        law_each_line_is_its_own_event(lines, domain, i);
        if let Ok(events) = outcome {
            let k = filled(lines.take(i)) as int;
            assert(json::contents(events@)[k] == json::content(events@[k]));
        }
    }
}

/// If no line is counted as filled, all are blank.
proof fn lemma_nothing_filled(lines: Seq<Seq<char>>)
    requires
        filled(lines) == 0,
    ensures
        forall|i: int| 0 <= i < lines.len() ==> text::blank(#[trigger] lines[i]),
    decreases lines.len(),
{
    if lines.len() > 0 {
        let init = lines.drop_last();
        text::lemma_trimmed_empty(lines.last());
        lemma_nothing_filled(init);
        assert forall|i: int| 0 <= i < lines.len() implies text::blank(#[trigger] lines[i]) by {
            if i < init.len() {
                assert(init[i] == lines[i]);
            }
        }
    }
}

/// As many lines count as filled as are not blank.
pub proof fn law_filled_lines_are_not_blank(lines: Seq<Seq<char>>, line: Seq<char>)
    ensures
        filled(Seq::empty()) == 0,
        text::blank(line) ==> filled(lines.push(line)) == filled(lines),
        !text::blank(line) ==> filled(lines.push(line)) == filled(lines) + 1,
{
    text::lemma_trimmed_empty(line);
    assert(lines.push(line).drop_last() =~= lines);
}

/// Lines that are all blank are accepted, and hold no events.
pub proof fn law_blank_lines_hold_no_events(lines: Seq<Seq<char>>, domain: Option<Seq<char>>)
    requires
        filled(lines) == 0,
    ensures
        imported(lines, domain) == Ok::<Seq<json::Json>, Seq<char>>(Seq::empty()),
{
    lemma_nothing_filled(lines);
    law_import_succeeds_on_objects_only(lines, domain);
    law_import_holds_one_event_per_line(lines, domain);
    assert(imported(lines, domain)->Ok_0 =~= Seq::empty());
}

} // verus!
