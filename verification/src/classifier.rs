//! The protocol classifier: which status, if any, a worker's message dictates.

use crate::json::{as_str, content, get, Json};
use crate::status::BridgeStatus;
use crate::text::str_eq;
use vstd::prelude::*;

verus! {

/// The characters of an optional string slice.
pub open spec fn chars_of(text: Option<&str>) -> Option<Seq<char>> {
    match text {
        Some(slice) => Some(slice@),
        None => None,
    }
}

/// Whether a message type announces that authentication is still needed.
pub open spec fn asks_for_auth(kind: Seq<char>) -> bool {
    kind == "auth.qr"@ || kind == "auth.code_needed"@ || kind == "auth.phone_needed"@
}

/// The status that a message dictates, from its `type` and from the status it
/// reports under `data.status`; `None` where it dictates none.
pub open spec fn status_change(kind: Option<Seq<char>>, reported: Option<Seq<char>>) -> Option<
    BridgeStatus,
> {
    match kind {
        None => None,
        Some(kind) => if kind == "auth.success"@ {
            Some(BridgeStatus::Connected)
        } else if asks_for_auth(kind) {
            Some(BridgeStatus::AuthNeeded)
        } else if kind == "status"@ {
            match reported {
                Some(name) => BridgeStatus::named(name),
                None => None,
            }
        } else {
            None
        },
    }
}

/// The `type` of a message: its string member of that name.
pub open spec fn message_kind(message: Json) -> Option<Seq<char>> {
    message.text_member("type"@)
}

/// The status that a message reports: the string member `status` of its member
/// `data`.
pub open spec fn reported_status(message: Json) -> Option<Seq<char>> {
    match message.member("data"@) {
        Some(data) => data.text_member("status"@),
        None => None,
    }
}

/// The status that a decoded message dictates.
pub open spec fn transition(message: Json) -> Option<BridgeStatus> {
    status_change(message_kind(message), reported_status(message))
}

/// Classifies a message by its `type` and the status it reports.
///
/// `auth.success` gives `Connected`; `auth.qr`, `auth.code_needed` and
/// `auth.phone_needed` give `AuthNeeded`; `status` gives the reported status
/// when that is a canonical name. Everything else, a missing type included,
/// gives no transition.
pub fn classify_fields(kind: Option<&str>, reported: Option<&str>) -> (change: Option<BridgeStatus>)
    ensures
        change == status_change(chars_of(kind), chars_of(reported)),
{
    match kind {
        None => None,
        Some(kind) => {
            if str_eq(kind, "auth.success") {
                Some(BridgeStatus::Connected)
            } else if str_eq(kind, "auth.qr") || str_eq(kind, "auth.code_needed") || str_eq(
                kind,
                "auth.phone_needed",
            ) {
                Some(BridgeStatus::AuthNeeded)
            } else if str_eq(kind, "status") {
                match reported {
                    Some(name) => BridgeStatus::from_name(name),
                    None => None,
                }
            } else {
                None
            }
        },
    }
}

/// The string member of a JSON value stored under `key`, if there is one.
fn text_member<'a>(value: &'a serde_json::Value, key: &str) -> (found: Option<&'a str>)
    ensures
        chars_of(found) == content(*value).text_member(key@),
{
    match get(value, key) {
        Some(inner) => as_str(inner),
        None => None,
    }
}

/// Classifies a decoded protocol message. It never fails: a message of any
/// other shape dictates no transition.
pub fn classify(message: &serde_json::Value) -> (change: Option<BridgeStatus>)
    ensures
        change == transition(content(*message)),
{
    let kind = text_member(message, "type");
    let reported = match kind {
        Some(kind) if str_eq(kind, "status") => match get(message, "data") {
            Some(data) => text_member(data, "status"),
            None => None,
        },
        _ => None,
    };
    classify_fields(kind, reported)
}

} // verus!
