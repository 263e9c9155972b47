//! JSON: event payloads, the objects in API responses, and the documents that commands print.

use crate::clock::Timestamp;
use crate::text;
use serde_json::Value;
use time::{Date, UtcOffset};
use vstd::prelude::*;
use vstd::string::*;

verus! {

/// A JSON value, as `serde_json` holds it.
#[verifier::external_type_specification]
#[verifier::external_body]
pub struct ExValue(serde_json::Value);

/// A JSON object, as `serde_json` holds it.
#[verifier::external_type_specification]
#[verifier::external_body]
#[verifier::reject_recursive_types(K)]
#[verifier::reject_recursive_types(V)]
pub struct ExObject<K, V>(serde_json::Map<K, V>);

/// What a JSON value says.
pub enum Json {
    Null,
    Bool(bool),
    /// A number, in its decimal notation.
    Number(Seq<char>),
    Text(Seq<char>),
    Array(Seq<Json>),
    Object(Map<Seq<char>, Json>),
}

/// A member of an object: its name and what its value says.
pub type Member = (Seq<char>, Json);

/// What a `serde_json::Value` says.
pub uninterp spec fn content(value: serde_json::Value) -> Json;

/// The members of a `serde_json::Map`, in the order in which it is walked.
pub uninterp spec fn members(object: serde_json::Map<String, serde_json::Value>) -> Seq<Member>;

/// Whether member names are in strictly ascending alphabetical order.
pub open spec fn ascending(list: Seq<Member>) -> bool {
    forall|i: int, j: int|
        0 <= i < j < list.len() ==> text::before(#[trigger] list[i].0, #[trigger] list[j].0)
}

/// The members of a list by their names. Of two with the same name the later one counts.
pub open spec fn by_name(list: Seq<Member>) -> Map<Seq<char>, Json>
    decreases list.len(),
{
    if list.len() == 0 {
        Map::empty()
    } else {
        by_name(list.drop_last()).insert(list.last().0, list.last().1)
    }
}

/// The object with the given members.
pub open spec fn object(list: Seq<Member>) -> Json {
    Json::Object(by_name(list))
}

/// What a list of members says.
pub open spec fn member_contents(list: Seq<(String, Value)>) -> Seq<Member> {
    list.map_values(|m: (String, Value)| (m.0@, content(m.1)))
}

/// What a list of values says.
pub open spec fn contents(list: Seq<Value>) -> Seq<Json> {
    list.map_values(|v: Value| content(v))
}

/// Calls `serde_json::Map::iter` and hands out copies of the members. They come in ascending order
/// of their names.
#[verifier::external_body]
pub(crate) fn entries(object: &serde_json::Map<String, Value>) -> (list: Vec<(String, Value)>)
    ensures
        member_contents(list@) == members(*object),
        ascending(member_contents(list@)),
{
    object.iter().map(|(name, value)| (name.clone(), value.clone())).collect()
}

/// `serde_json::Value::clone` copies the value.
pub assume_specification[ <Value as Clone>::clone ](value: &Value) -> (copy: Value)
    ensures
        content(copy) == content(*value),
;

/// `serde_json::Value::is_object` tells objects from other values.
pub assume_specification[ Value::is_object ](value: &Value) -> (yes: bool)
    ensures
        yes == (content(*value) is Object),
;

/// Makes a `serde_json::Value` of the object that `serde_json::Map::new` gives, which is empty.
#[verifier::external_body]
fn empty_object() -> (value: Value)
    ensures
        content(value) == Json::Object(Map::empty()),
{
    Value::Object(serde_json::Map::new())
}

/// Calls `serde_json::Map::insert`, if the value is an object: the member gets the given value,
/// whether or not there was one of its name, and all others stay. A value of another kind stays as
/// it is.
#[verifier::external_body]
fn insert_member(value: &mut Value, name: String, member: Value)
    ensures
        content(*final(value)) == (match content(*old(value)) {
            Json::Object(m) => Json::Object(m.insert(name@, content(member))),
            other => other,
        }),
{
    match value {
        Value::Object(members) => {
            members.insert(name, member);
        }
        _ => {}
    }
}

/// What `serde_json::from_str` makes of a text: a value, or the message of an error.
pub uninterp spec fn parsed(json: Seq<char>) -> Result<Json, Seq<char>>;

/// Calls `serde_json::from_str`. What the text means is named, not described.
#[verifier::external_body]
pub(crate) fn parse(json: &str) -> (outcome: Result<Value, String>)
    ensures
        match outcome {
            Ok(value) => parsed(json@) == Ok::<Json, Seq<char>>(content(value)),
            Err(e) => parsed(json@) == Err::<Json, Seq<char>>(e@),
        },
{
    serde_json::from_str(json).map_err(|e| e.to_string())
}

/// The compact notation that `serde_json::to_string` gives of a value, if it gives one.
pub uninterp spec fn compact(json: Json) -> Option<Seq<char>>;

/// Calls `serde_json::to_string`. What it writes is named, not described.
#[verifier::external_body]
fn compact_text(value: &Value) -> (text: Option<String>)
    ensures
        text.deep_view() == compact(content(*value)),
{
    serde_json::to_string(value).ok()
}

/// The indented notation that `serde_json::to_string_pretty` gives of a value, or the message of
/// an error.
pub uninterp spec fn pretty(json: Json) -> Result<Seq<char>, Seq<char>>;

/// Calls `serde_json::to_string_pretty`. What it writes is named, not described.
#[verifier::external_body]
pub(crate) fn pretty_text(value: &Value) -> (outcome: Result<String, String>)
    ensures
        match outcome {
            Ok(text) => pretty(content(*value)) == Ok::<Seq<char>, Seq<char>>(text@),
            Err(e) => pretty(content(*value)) == Err::<Seq<char>, Seq<char>>(e@),
        },
{
    serde_json::to_string_pretty(value).map_err(|e| e.to_string())
}

/// The indented notation that `serde_json::Serializer::pretty` gives of a map whose members come in
/// the given order, or the message of an error.
pub uninterp spec fn pretty_record(list: Seq<Member>) -> Result<Seq<char>, Seq<char>>;

/// Calls `serde::Serializer::collect_map` on `serde_json::Serializer::pretty`, which writes the
/// members in the order of the list. What it writes is named, not described.
#[verifier::external_body]
pub(crate) fn record_text(list: &Vec<(String, Value)>) -> (outcome: Result<String, String>)
    ensures
        match outcome {
            Ok(text) => pretty_record(member_contents(list@)) == Ok::<Seq<char>, Seq<char>>(text@),
            Err(e) => pretty_record(member_contents(list@)) == Err::<Seq<char>, Seq<char>>(e@),
        },
{
    let mut bytes: Vec<u8> = Vec::new();
    let mut writer = serde_json::Serializer::pretty(&mut bytes);
    let members = list.iter().map(|member| (&member.0, &member.1));
    serde::Serializer::collect_map(&mut writer, members).map_err(|e| e.to_string())?;
    String::from_utf8(bytes).map_err(|e| e.to_string())
}

/// The indented notations of records, or the message of the first error.
pub open spec fn record_texts(rows: Seq<Seq<Member>>) -> Result<Seq<Seq<char>>, Seq<char>>
    decreases rows.len(),
{
    if rows.len() == 0 {
        Ok(Seq::empty())
    } else {
        match record_texts(rows.drop_last()) {
            Err(e) => Err(e),
            Ok(texts) => match pretty_record(rows.last()) {
                Err(e) => Err(e),
                Ok(text) => Ok(texts.push(text)),
            },
        }
    }
}

/// Texts, each with two spaces after every line feed.
pub open spec fn indented_all(texts: Seq<Seq<char>>) -> Seq<Seq<char>> {
    texts.map_values(|t: Seq<char>| text::indented(t))
}

/// The indented notation of a list, given that of its elements.
pub open spec fn listing(texts: Seq<Seq<char>>) -> Seq<char> {
    if texts.len() == 0 {
        "[]"@
    } else {
        "[\n  "@ + text::joined(indented_all(texts), ",\n  "@) + "\n]"@
    }
}

/// The indented notation of a list of records, or the message of an error.
pub open spec fn pretty_records(rows: Seq<Seq<Member>>) -> Result<Seq<char>, Seq<char>> {
    match record_texts(rows) {
        Err(e) => Err(e),
        Ok(texts) => Ok(listing(texts)),
    }
}

/// What a list of records says.
pub open spec fn row_contents(rows: Seq<Vec<(String, Value)>>) -> Seq<Seq<Member>> {
    rows.map_values(|row: Vec<(String, Value)>| member_contents(row@))
}

/// Writes a list of records in indented notation.
pub(crate) fn records_text(rows: &Vec<Vec<(String, Value)>>) -> (outcome: Result<String, String>)
    ensures
        match outcome {
            Ok(text) => pretty_records(row_contents(rows@)) == Ok::<Seq<char>, Seq<char>>(text@),
            Err(e) => pretty_records(row_contents(rows@)) == Err::<Seq<char>, Seq<char>>(e@),
        },
{
    let ghost all = row_contents(rows@);
    let ghost mut plain: Seq<Seq<char>> = Seq::empty();
    let mut parts: Vec<String> = Vec::new();
    let mut i: usize = 0;
    while i < rows.len()
        invariant
            i <= rows@.len(),
            all == row_contents(rows@),
            record_texts(all.take(i as int)) == Ok::<Seq<Seq<char>>, Seq<char>>(plain),
            text::views(parts@) == indented_all(plain),
            plain.len() == i,
        decreases rows@.len() - i,
    {
        assert(all.take(i + 1).drop_last() =~= all.take(i as int));
        assert(all.take(i + 1).last() == member_contents(rows@[i as int]@));
        match record_text(&rows[i]) {
            Ok(text) => {
                let ghost shorter = text::views(parts@);
                parts.push(text::indent(text.as_str()));
                proof {
                    plain = plain.push(text@);
                }
                assert(text::views(parts@) =~= shorter.push(text::indented(text@)));
                assert(indented_all(plain) =~= shorter.push(text::indented(text@)));
            },
            Err(e) => {
                proof {
                    lemma_record_error(all, i + 1, e@);
                }
                return Err(e);
            },
        }
        i = i + 1;
    }
    assert(all.take(i as int) =~= all);
    if parts.len() == 0 {
        return Ok("[]".to_owned());
    }
    Ok("[\n  ".to_owned().concat(text::join(&parts, ",\n  ").as_str()).concat("\n]"))
}

/// The first records decide what the error is.
proof fn lemma_record_error(rows: Seq<Seq<Member>>, n: int, e: Seq<char>)
    requires
        0 <= n <= rows.len(),
        record_texts(rows.take(n)) == Err::<Seq<Seq<char>>, Seq<char>>(e),
    ensures
        record_texts(rows) == Err::<Seq<Seq<char>>, Seq<char>>(e),
    decreases rows.len() - n,
{
    if n < rows.len() {
        assert(rows.take(n + 1).drop_last() =~= rows.take(n));
        lemma_record_error(rows, n + 1, e);
    } else {
        assert(rows.take(n) =~= rows);
    }
}

/// The kinds of JSON values, with what they hold if it is a single datum.
#[derive(Debug)]
pub enum Kind {
    Null,
    Bool(bool),
    Number(String),
    Text(String),
    Composite,
}

/// Tells the variants of a `serde_json::Value` apart. Numbers are given in the notation of
/// `serde_json::Number::to_string`.
#[verifier::external_body]
fn kind(value: &Value) -> (kind: Kind)
    ensures
        match kind {
            Kind::Null => content(*value) is Null,
            Kind::Bool(b) => content(*value) == Json::Bool(b),
            Kind::Number(n) => content(*value) == Json::Number(n@),
            Kind::Text(s) => content(*value) == Json::Text(s@),
            Kind::Composite => content(*value) is Array || content(*value) is Object,
        },
{
    match value {
        Value::Null => Kind::Null,
        Value::Bool(b) => Kind::Bool(*b),
        Value::Number(n) => Kind::Number(n.to_string()),
        Value::String(s) => Kind::Text(s.clone()),
        Value::Array(_) => Kind::Composite,
        Value::Object(_) => Kind::Composite,
    }
}

/// How a value is shown in a table: texts without quotes, everything else in JSON notation.
pub open spec fn shown(json: Json) -> Seq<char> {
    match json {
        Json::Null => "null"@,
        Json::Bool(b) => truth(b),
        Json::Number(n) => n,
        Json::Text(s) => s,
        other => match compact(other) {
            Some(notation) => notation,
            None => "<unserializable>"@,
        },
    }
}

/// How a truth value is shown.
pub open spec fn truth(b: bool) -> Seq<char> {
    if b {
        "true"@
    } else {
        "false"@
    }
}

/// Renders a truth value.
pub fn truth_text(b: bool) -> (text: String)
    ensures
        text@ == truth(b),
{
    if b {
        "true".to_owned()
    } else {
        "false".to_owned()
    }
}

/// Renders a value for a table: texts without quotes, everything else in JSON notation.
pub fn format_value(value: &Value) -> (text: String)
    ensures
        text@ == shown(content(*value)),
{
    match kind(value) {
        Kind::Null => "null".to_owned(),
        Kind::Bool(b) => truth_text(b),
        Kind::Number(n) => n,
        Kind::Text(s) => s,
        Kind::Composite => match compact_text(value) {
            Some(notation) => notation,
            None => "<unserializable>".to_owned(),
        },
    }
}

/// A value that is no array and no object.
#[derive(Debug)]
pub(crate) enum Datum {
    Null,
    Bool(bool),
    Number(u64),
    Text(String),
}

impl Datum {
    /// What the value says.
    pub(crate) open spec fn says(self) -> Json {
        match self {
            Datum::Null => Json::Null,
            Datum::Bool(b) => Json::Bool(b),
            Datum::Number(n) => Json::Number(text::decimal(n as nat)),
            Datum::Text(s) => Json::Text(s@),
        }
    }
}

/// Makes a `serde_json::Value` of a single datum, with `serde_json::Value::from` for numbers.
#[verifier::external_body]
pub(crate) fn single(datum: Datum) -> (value: Value)
    ensures
        content(value) == datum.says(),
{
    match datum {
        Datum::Null => Value::Null,
        Datum::Bool(b) => Value::Bool(b),
        Datum::Number(n) => Value::from(n),
        Datum::Text(s) => Value::String(s),
    }
}

/// Makes a `serde_json::Value` of a list of values.
#[verifier::external_body]
pub(crate) fn array_of(list: Vec<Value>) -> (value: Value)
    ensures
        content(value) == Json::Array(contents(list@)),
{
    Value::Array(list)
}

/// Makes an object of a list of members.
pub(crate) fn object_of(list: Vec<(String, Value)>) -> (value: Value)
    ensures
        content(value) == object(member_contents(list@)),
    decreases list@.len(),
{
    let ghost all = member_contents(list@);
    let mut rest = list;
    match rest.pop() {
        None => {
            assert(by_name(all) == Map::<Seq<char>, Json>::empty());
            empty_object()
        },
        Some((name, member)) => {
            assert(member_contents(rest@) =~= all.drop_last());
            assert(all.last() == (name@, content(member)));
            let mut value = object_of(rest);
            insert_member(&mut value, name, member);
            value
        },
    }
}

/// What `serde_json::to_value` makes of a `time::OffsetDateTime`.
pub uninterp spec fn moment(t: Timestamp) -> Json;

/// Calls `serde_json::to_value` on a `time::OffsetDateTime`. What it says is named, not described.
#[verifier::external_body]
pub(crate) fn moment_value(t: Timestamp) -> (value: Value)
    requires
        t.valid(),
    ensures
        content(value) == moment(t),
{
    let offset = UtcOffset::from_whole_seconds(t.offset).unwrap();
    let date = Date::from_julian_day(t.day).unwrap();
    let local = date.with_hms_nano(t.hour, t.minute, t.second, t.nanosecond).unwrap();
    serde_json::to_value(local.assume_offset(offset)).unwrap()
}

/// The value with the given domain, if there is one to be set and the value is an object.
pub open spec fn with_domain(json: Json, domain: Option<Seq<char>>) -> Json {
    match (domain, json) {
        (Some(d), Json::Object(m)) => Json::Object(m.insert("domain"@, Json::Text(d))),
        _ => json,
    }
}

/// Sets the domain of an event, if there is one to be set.
pub fn apply_domain_override(value: &mut Value, domain: &Option<String>)
    ensures
        content(*final(value)) == with_domain(content(*old(value)), domain.deep_view()),
{
    match domain {
        Some(d) => insert_member(value, "domain".to_owned(), single(Datum::Text(d.clone()))),
        None => {},
    }
}

/// Adds a member to a list.
pub(crate) fn push_member(list: &mut Vec<(String, Value)>, name: &str, value: Value)
    ensures
        member_contents(final(list)@) == member_contents(old(list)@).push(
            (name@, content(value)),
        ),
{
    list.push((name.to_owned(), value));
    assert(member_contents(list@) =~= member_contents(old(list)@).push(
        (name@, content(value)),
    ));
}

/// Adds a member that holds a text to a list.
pub(crate) fn push_text(list: &mut Vec<(String, Value)>, name: &str, text: &str)
    ensures
        member_contents(final(list)@) == member_contents(old(list)@).push(
            (name@, Json::Text(text@)),
        ),
{
    push_member(list, name, single(Datum::Text(text.to_owned())));
}

/// Adds a value to a list.
pub(crate) fn push_value(list: &mut Vec<Value>, value: Value)
    ensures
        contents(final(list)@) == contents(old(list)@).push(content(value)),
{
    list.push(value);
    assert(contents(list@) =~= contents(old(list)@).push(content(value)));
}

/// An object is looked up by name: each member of a list is found under its name, unless a later one
/// has the same.
pub proof fn law_members_are_found_by_name(list: Seq<Member>, i: int)
    requires
        0 <= i < list.len(),
        forall|j: int| i < j < list.len() ==> (#[trigger] list[j]).0 != list[i].0,
    ensures
        object(list) is Object,
        object(list)->Object_0.contains_key(list[i].0),
        object(list)->Object_0[list[i].0] == list[i].1,
        by_name(list).contains_key(list[i].0),
        by_name(list)[list[i].0] == list[i].1,
    decreases list.len(),
{
    let init = list.drop_last();
    if i < init.len() {
        assert(init[i] == list[i]);
        assert forall|j: int| i < j < init.len() implies (#[trigger] init[j]).0 != init[i].0 by {
            assert(init[j] == list[j]);
        }
        law_members_are_found_by_name(init, i);
        assert(list[list.len() - 1].0 != list[i].0);
    }
}

/// An object has no other members than those of its list.
pub proof fn law_only_listed_members_are_found(list: Seq<Member>, name: Seq<char>)
    requires
        forall|i: int| 0 <= i < list.len() ==> (#[trigger] list[i]).0 != name,
    ensures
        object(list) is Object,
        !object(list)->Object_0.contains_key(name),
        !by_name(list).contains_key(name),
    decreases list.len(),
{
    if list.len() > 0 {
        let init = list.drop_last();
        assert forall|i: int| 0 <= i < init.len() implies (#[trigger] init[i]).0 != name by {
            assert(init[i] == list[i]);
        }
        law_only_listed_members_are_found(init, name);
        assert(list[list.len() - 1].0 != name);
    }
}

/// What a value is shown as: the two truth values, nothing, a number and a text each as itself, and
/// anything else in compact notation, if it has one.
pub proof fn law_values_are_shown_as_themselves(json: Json, t: Seq<char>)
    ensures
        shown(Json::Bool(true)) == "true"@,
        shown(Json::Bool(false)) == "false"@,
        shown(Json::Null) == "null"@,
        shown(Json::Number(t)) == t,
        shown(Json::Text(t)) == t,
        json is Array || json is Object ==> (compact(json) matches Some(notation) ==> shown(json)
            == notation),
        json is Array || json is Object ==> (compact(json) is None ==> shown(json)
            == "<unserializable>"@),
{
}

/// Setting the domain of an event changes an object only, and in it only the member `domain`, which
/// then holds the text that was asked for. If none is asked for nothing changes.
pub proof fn law_domain_is_set(json: Json, domain: Seq<char>, name: Seq<char>)
    ensures
        with_domain(json, None) == json,
        json !is Object ==> with_domain(json, Some(domain)) == json,
        json matches Json::Object(before) ==> {
            &&& with_domain(json, Some(domain)) matches Json::Object(after)
            &&& after.contains_key("domain"@)
            &&& after["domain"@] == Json::Text(domain)
            &&& name != "domain"@ ==> {
                &&& after.contains_key(name) == before.contains_key(name)
                &&& before.contains_key(name) ==> after[name] == before[name]
            }
        },
{
}

/// A list is written in brackets, one element after the other, each on lines of its own that are
/// indented by two spaces, with a comma between each two.
pub proof fn law_lists_are_written_element_by_element(
    texts: Seq<Seq<char>>,
    front: Seq<char>,
    t: Seq<char>,
)
    ensures
        listing(Seq::empty()) == "[]"@,
        listing(seq![t]) == "[\n  "@ + text::indented(t) + "\n]"@,
        texts.len() > 0 && listing(texts) == front + "\n]"@ ==> listing(texts.push(t)) == front
            + ",\n  "@ + text::indented(t) + "\n]"@,
{
    assert(indented_all(seq![t]) =~= seq![text::indented(t)]);
    if texts.len() > 0 && listing(texts) == front + "\n]"@ {
        let inner = text::joined(indented_all(texts), ",\n  "@);
        let n = listing(texts).len() - "\n]"@.len();
        assert(front =~= listing(texts).take(n));
        assert("[\n  "@ + inner =~= listing(texts).take(n));
        assert(indented_all(texts.push(t)) =~= indented_all(texts).push(text::indented(t)));
        text::law_joining_appends_parts(indented_all(texts), text::indented(t), ",\n  "@);
        assert(listing(texts.push(t)) =~= front + ",\n  "@ + text::indented(t) + "\n]"@);
    }
}

/// The notation of a list of records is that of each of them, in their order.
pub proof fn law_records_are_written_in_order(rows: Seq<Seq<Member>>, i: int)
    requires
        0 <= i < rows.len(),
    ensures
        record_texts(rows) matches Ok(texts) ==> {
            &&& texts.len() == rows.len()
            &&& pretty_record(rows[i]) == Ok::<Seq<char>, Seq<char>>(texts[i])
            &&& pretty_records(rows) == Ok::<Seq<char>, Seq<char>>(listing(texts))
        },
        pretty_record(rows[i]) is Err ==> pretty_records(rows) is Err,
    decreases rows.len(),
{
    let init = rows.drop_last();
    if i < init.len() {
        law_records_are_written_in_order(init, i);
        assert(init[i] == rows[i]);
    } else if init.len() > 0 {
        law_records_are_written_in_order(init, 0);
    }
}

/// Whether a document is an object with a given member.
pub open spec fn has(document: Json, name: Seq<char>, value: Json) -> bool {
    &&& document matches Json::Object(m)
    &&& m.contains_key(name)
    &&& m[name] == value
}

/// Whether a document is an object without a member of a given name.
pub open spec fn lacks(document: Json, name: Seq<char>) -> bool {
    document matches Json::Object(m) && !m.contains_key(name)
}

/// Whether no two members of a list have the same name.
pub open spec fn told_apart(list: Seq<Member>) -> bool {
    forall|i: int, j: int|
        0 <= i < j < list.len() ==> (#[trigger] list[i]).0 != (#[trigger] list[j]).0
}

/// An object has each member of a list whose names differ, and no other.
pub proof fn law_object_has_its_members(list: Seq<Member>)
    requires
        told_apart(list),
    ensures
        forall|i: int|
            0 <= i < list.len() ==> has(object(list), (#[trigger] list[i]).0, list[i].1),
        forall|name: Seq<char>|
            (forall|i: int| 0 <= i < list.len() ==> (#[trigger] list[i]).0 != name)
                ==> #[trigger] lacks(object(list), name),
{
    assert forall|i: int| 0 <= i < list.len() implies has(
        object(list),
        (#[trigger] list[i]).0,
        list[i].1,
    ) by {
        law_members_are_found_by_name(list, i);
    }
    assert forall|name: Seq<char>|
        (forall|i: int| 0 <= i < list.len() ==> (#[trigger] list[i]).0
            != name) implies #[trigger] lacks(object(list), name) by {
        law_only_listed_members_are_found(list, name);
    }
}

/// What a list of values or of members says is what each of them says, in their order.
pub proof fn law_contents_keep_values(
    values: Seq<Value>,
    list: Seq<(String, Value)>,
    rows: Seq<Vec<(String, Value)>>,
    i: int,
)
    ensures
        contents(values).len() == values.len(),
        0 <= i < values.len() ==> contents(values)[i] == content(values[i]),
        member_contents(list).len() == list.len(),
        0 <= i < list.len() ==> member_contents(list)[i] == (list[i].0@, content(list[i].1)),
        row_contents(rows).len() == rows.len(),
        0 <= i < rows.len() ==> row_contents(rows)[i] == member_contents(rows[i]@),
{
}

} // verus!
