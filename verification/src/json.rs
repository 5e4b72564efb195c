//! JSON text: string literals as serde_json writes them, and the JSON
//! documents that the client sends.
use vstd::prelude::*;

use crate::text::hex_digit;

verus! {

/// serde_json's dynamically typed JSON value; the library only carries it.
#[verifier::external_type_specification]
#[verifier::external_body]
pub struct ExJsonValue(serde_json::Value);

/// `serde_json::Value` derives `Clone`, which copies the whole value.
pub assume_specification[ <serde_json::Value as Clone>::clone ](v: &serde_json::Value) -> (r:
    serde_json::Value)
    ensures
        r == *v,
;

/// How serde_json writes one character inside a JSON string literal.
pub open spec fn json_escape_char(c: char) -> Seq<char> {
    if c == '"' {
        seq!['\\', '"']
    } else if c == '\\' {
        seq!['\\', '\\']
    } else if c == '\x08' {
        seq!['\\', 'b']
    } else if c == '\t' {
        seq!['\\', 't']
    } else if c == '\n' {
        seq!['\\', 'n']
    } else if c == '\x0C' {
        seq!['\\', 'f']
    } else if c == '\r' {
        seq!['\\', 'r']
    } else if (c as u32) < 0x20 {
        seq!['\\', 'u', '0', '0', hex_digit((c as nat) / 16), hex_digit((c as nat) % 16)]
    } else {
        seq![c]
    }
}

/// The characters of `s` escaped for a JSON string literal.
pub open spec fn json_escape(s: Seq<char>) -> Seq<char>
    decreases s.len(),
{
    if s.len() == 0 {
        Seq::empty()
    } else {
        json_escape_char(s[0]) + json_escape(s.drop_first())
    }
}

/// The JSON string literal that serde_json writes for `s`.
pub open spec fn json_string(s: Seq<char>) -> Seq<char> {
    seq!['"'] + json_escape(s) + seq!['"']
}

/// `serde_json::to_string` on a string slice. serde_json writes a quote,
/// then each character escaped as its table `ESCAPE` says (`"` and `\` with a
/// backslash; backspace, tab, line feed, form feed and carriage return by
/// their short escapes; other characters below U+0020 as `\u00` and two
/// lower-case hex digits; every other character as itself), then a quote.
/// Writing into a `Vec` cannot fail, so the result is always `Ok`.
#[verifier::external_body]
fn serde_json_string(s: &str) -> (r: Result<String, String>)
    ensures
        r is Ok,
        r->Ok_0@ == json_string(s@),
{
    match serde_json::to_string(s) {
        Ok(t) => Ok(t),
        Err(e) => Err(e.to_string()),
    }
}

/// The JSON string literal for `s`.
pub fn json_string_literal(s: &str) -> (r: String)
    ensures
        r@ == json_string(s@),
{
    serde_json_string(s).unwrap()
}

/// What `serde_json::from_str::<serde_json::Value>` makes of `s`: `Ok` when
/// `s` is one JSON document, else the display text of the parser's error.
pub uninterp spec fn json_parse_outcome(s: Seq<char>) -> Result<(), Seq<char>>;

/// For a JSON document `s`: its member `flag` read as a boolean and its
/// member `count` read as an unsigned 64-bit integer, each `None` where the
/// member is absent or of another kind.
pub uninterp spec fn json_members_of(s: Seq<char>, flag: Seq<char>, count: Seq<char>) -> (
    Option<bool>,
    Option<u64>,
);

/// `serde_json::from_str::<serde_json::Value>`, then `Value::get` of the two
/// members with `Value::as_bool` and `Value::as_u64`; a parse failure is
/// converted to its display text. A function of its arguments.
#[verifier::external_body]
pub(crate) fn serde_json_members(s: &str, flag: &str, count: &str) -> (r: Result<
    (Option<bool>, Option<u64>),
    String,
>)
    ensures
        r is Ok <==> json_parse_outcome(s@) is Ok,
        r is Err ==> r->Err_0@ == json_parse_outcome(s@)->Err_0,
        r is Ok ==> r->Ok_0 == json_members_of(s@, flag@, count@),
{
    match serde_json::from_str::<serde_json::Value>(s) {
        Ok(v) => Ok(
            (
                v.get(flag).and_then(serde_json::Value::as_bool),
                v.get(count).and_then(serde_json::Value::as_u64),
            ),
        ),
        Err(e) => Err(e.to_string()),
    }
}

/// `{"data":{"channel":C},"event":"pusher:subscribe"}`, as serde_json writes
/// that object (keys sorted, no spaces).
pub open spec fn subscribe_message(channel: Seq<char>) -> Seq<char> {
    "{\"data\":{\"channel\":"@ + json_string(channel) + "},\"event\":\"pusher:subscribe\"}"@
}

/// `{"data":{"auth":A,"channel":C},"event":"pusher:subscribe"}`.
pub open spec fn subscribe_with_auth_message(channel: Seq<char>, auth: Seq<char>) -> Seq<char> {
    "{\"data\":{\"auth\":"@ + json_string(auth) + ",\"channel\":"@ + json_string(channel)
        + "},\"event\":\"pusher:subscribe\"}"@
}

/// `{"data":{"channel":C},"event":"pusher:unsubscribe"}`.
pub open spec fn unsubscribe_message(channel: Seq<char>) -> Seq<char> {
    "{\"data\":{\"channel\":"@ + json_string(channel) + "},\"event\":\"pusher:unsubscribe\"}"@
}

/// One published event: `{"channel":C,"data":D,"name":E}`, the data kept as a string.
pub open spec fn event_object(channel: Seq<char>, event: Seq<char>, data: Seq<char>) -> Seq<char> {
    "{\"channel\":"@ + json_string(channel) + ",\"data\":"@ + json_string(data) + ",\"name\":"@
        + json_string(event) + "}"@
}

/// The event objects of a batch, separated by commas.
pub open spec fn event_objects(events: Seq<(Seq<char>, Seq<char>, Seq<char>)>) -> Seq<char>
    decreases events.len(),
{
    if events.len() == 0 {
        Seq::empty()
    } else if events.len() == 1 {
        event_object(events[0].0, events[0].1, events[0].2)
    } else {
        event_objects(events.drop_last()) + ","@ + event_object(
            events.last().0,
            events.last().1,
            events.last().2,
        )
    }
}

/// `{"batch":[...]}` with one event object per event.
pub open spec fn batch_body(events: Seq<(Seq<char>, Seq<char>, Seq<char>)>) -> Seq<char> {
    "{\"batch\":["@ + event_objects(events) + "]}"@
}

/// The subscribe message for `channel`.
pub fn subscribe_message_text(channel: &str) -> (r: String)
    ensures
        r@ == subscribe_message(channel@),
{
    String::from_str("{\"data\":{\"channel\":").concat(json_string_literal(channel).as_str()).concat(
        "},\"event\":\"pusher:subscribe\"}",
    )
}

/// The subscribe message for `channel` carrying `auth`.
pub fn subscribe_with_auth_message_text(channel: &str, auth: &str) -> (r: String)
    ensures
        r@ == subscribe_with_auth_message(channel@, auth@),
{
    String::from_str("{\"data\":{\"auth\":").concat(json_string_literal(auth).as_str()).concat(
        ",\"channel\":",
    ).concat(json_string_literal(channel).as_str()).concat("},\"event\":\"pusher:subscribe\"}")
}

/// The unsubscribe message for `channel`.
pub fn unsubscribe_message_text(channel: &str) -> (r: String)
    ensures
        r@ == unsubscribe_message(channel@),
{
    String::from_str("{\"data\":{\"channel\":").concat(json_string_literal(channel).as_str()).concat(
        "},\"event\":\"pusher:unsubscribe\"}",
    )
}

/// The event object for one published event.
pub fn event_object_text(channel: &str, event: &str, data: &str) -> (r: String)
    ensures
        r@ == event_object(channel@, event@, data@),
{
    String::from_str("{\"channel\":").concat(json_string_literal(channel).as_str()).concat(
        ",\"data\":",
    ).concat(json_string_literal(data).as_str()).concat(",\"name\":").concat(
        json_string_literal(event).as_str(),
    ).concat("}")
}

} // verus!
