//! JSON text, read and written with `serde_json`.

use vstd::prelude::*;

verus! {

/// `serde_json::Value`, a parsed JSON document, carried through as an opaque
/// value.
#[verifier::external_type_specification]
#[verifier::external_body]
pub struct ExJsonValue(serde_json::Value);

/// The document that `serde_json` reads from `text`, or `None` where `text`
/// is not one JSON document.
pub uninterp spec fn json_document(text: Seq<char>) -> Option<serde_json::Value>;

/// The member of the JSON object `value` under `key`, or `None` where
/// `value` is no object or has no such member.
pub uninterp spec fn json_member(value: serde_json::Value, key: Seq<char>) -> Option<
    serde_json::Value,
>;

/// The JSON number `value` as a `u64`, or `None` where `value` is no number,
/// or a negative or a fractional one.
pub uninterp spec fn json_u64(value: serde_json::Value) -> Option<u64>;

/// The JSON text that `serde_json` writes for the string `text`: quoted and
/// escaped.
pub uninterp spec fn json_string(text: Seq<char>) -> Option<Seq<char>>;

/// `serde_json::from_str`, read as a `serde_json::Value`; its error is
/// dropped. Parsing depends on the text alone; the contract gives the
/// outcome its name, `json_document`, and claims nothing else of it.
#[verifier::external_body]
pub(crate) fn parse(text: &str) -> (r: Option<serde_json::Value>)
    ensures
        r == json_document(text@),
{
    serde_json::from_str::<serde_json::Value>(text).ok()
}

/// `serde_json::Value::get` with a string as the index: the member of an
/// object under that key. The contract gives the outcome its name,
/// `json_member`, and claims nothing else of it.
#[verifier::external_body]
pub(crate) fn member<'a>(value: &'a serde_json::Value, key: &str) -> (r: Option<
    &'a serde_json::Value,
>)
    ensures
        match r {
            Some(found) => json_member(*value, key@) == Some(*found),
            None => json_member(*value, key@) is None,
        },
{
    value.get(key)
}

/// `serde_json::Value::as_u64`: the value as a `u64` where it is a
/// non-negative integer. The contract gives the outcome its name,
/// `json_u64`, and claims nothing else of it.
pub assume_specification[ serde_json::Value::as_u64 ](value: &serde_json::Value) -> (r: Option<
    u64,
>)
    ensures
        r == json_u64(*value),
;

/// `serde_json::to_string` of a string: its JSON text, quoted and escaped;
/// its error is dropped. The contract gives the outcome its name,
/// `json_string`, and claims nothing else of it.
#[verifier::external_body]
pub(crate) fn quote(text: &str) -> (r: Option<String>)
    ensures
        match r {
            Some(quoted) => json_string(text@) == Some(quoted@),
            None => json_string(text@) is None,
        },
{
    serde_json::to_string(text).ok()
}

/// The text of one decimal digit.
pub open spec fn digit_text(digit: nat) -> Seq<char> {
    if digit == 0 {
        "0"@
    } else if digit == 1 {
        "1"@
    } else if digit == 2 {
        "2"@
    } else if digit == 3 {
        "3"@
    } else if digit == 4 {
        "4"@
    } else if digit == 5 {
        "5"@
    } else if digit == 6 {
        "6"@
    } else if digit == 7 {
        "7"@
    } else if digit == 8 {
        "8"@
    } else {
        "9"@
    }
}

/// The decimal text of a number, which is also its JSON text: its digits,
/// the most significant first, with no leading zero.
pub open spec fn decimal_text(number: nat) -> Seq<char>
    decreases number,
{
    if number < 10 {
        digit_text(number)
    } else {
        decimal_text(number / 10) + digit_text(number % 10)
    }
}

fn digit(value: u32) -> (r: &'static str)
    requires
        value < 10,
    ensures
        r@ == digit_text(value as nat),
{
    if value == 0 {
        "0"
    } else if value == 1 {
        "1"
    } else if value == 2 {
        "2"
    } else if value == 3 {
        "3"
    } else if value == 4 {
        "4"
    } else if value == 5 {
        "5"
    } else if value == 6 {
        "6"
    } else if value == 7 {
        "7"
    } else if value == 8 {
        "8"
    } else {
        "9"
    }
}

/// The decimal text of `number`.
pub fn decimal(number: u32) -> (r: String)
    ensures
        r@ == decimal_text(number as nat),
    decreases number,
{
    if number < 10 {
        String::from_str(digit(number))
    } else {
        let mut text = decimal(number / 10);
        text.append(digit(number % 10));
        text
    }
}

/// The JSON text of the flat object with the three members that a snapshot
/// has: the component's name, its reading under `key`, and the time of the
/// snapshot. `reading` is JSON text already.
pub open spec fn snapshot_text(
    name: Seq<char>,
    key: Seq<char>,
    reading: Seq<char>,
    timestamp: Seq<char>,
) -> Option<Seq<char>> {
    match (json_string(name), json_string(key), json_string(timestamp)) {
        (Some(quoted_name), Some(quoted_key), Some(quoted_timestamp)) => Some(
            "{\"name\":"@ + quoted_name + ","@ + quoted_key + ":"@ + reading
                + ",\"updateTimestamp\":"@ + quoted_timestamp + "}"@,
        ),
        _ => None,
    }
}

/// Writes the snapshot of the component called `name`, whose reading under
/// `key` has the JSON text `reading`, taken at `timestamp`. `None` exactly
/// where one of the strings has no JSON text.
pub fn snapshot(name: &str, key: &str, reading: &str, timestamp: &str) -> (r: Option<String>)
    ensures
        match r {
            Some(text) => snapshot_text(name@, key@, reading@, timestamp@) == Some(text@),
            None => snapshot_text(name@, key@, reading@, timestamp@) is None,
        },
{
    let quoted_name = match quote(name) {
        Some(quoted) => quoted,
        None => {
            return None;
        },
    };
    let quoted_key = match quote(key) {
        Some(quoted) => quoted,
        None => {
            return None;
        },
    };
    let quoted_timestamp = match quote(timestamp) {
        Some(quoted) => quoted,
        None => {
            return None;
        },
    };
    let mut text = String::from_str("{\"name\":");
    text.append(quoted_name.as_str());
    text.append(",");
    text.append(quoted_key.as_str());
    text.append(":");
    text.append(reading);
    text.append(",\"updateTimestamp\":");
    text.append(quoted_timestamp.as_str());
    text.append("}");
    Some(text)
}

} // verus!
