//! Messages from the quick app: only a config pull is answered.
//!
//! A message arrives as JSON whose `payloadText` member (or, failing that, the
//! whole payload) is itself JSON; `{"tag":"cfg-pull"}` asks for the saved
//! configuration to be pushed to the sending band (`addr`), or to every band
//! when no address is given.
use vstd::prelude::*;
use crate::json::{Json, JsonModel, get_spec, as_str_spec, parsed_json, parse_json};

verus! {

/// The inner text of a message: its `payloadText` string, else the payload.
pub open spec fn inner_text_spec(payload: Seq<char>, outer: JsonModel) -> Seq<char> {
    match as_str_spec(get_spec(outer, "payloadText"@)) {
        Some(t) => t,
        None => payload,
    }
}

/// The sender's address: the `addr` string, else empty.
pub open spec fn sender_spec(outer: JsonModel) -> Seq<char> {
    match as_str_spec(get_spec(outer, "addr"@)) {
        Some(a) => a,
        None => seq![],
    }
}

/// Reads the envelope of a message (`payload` parsed as `outer`): the inner
/// text to parse next, and the sender's address.
pub fn interconnect_envelope(payload: &str, outer: &Json) -> (r: (String, String))
    ensures
        r.0@ == inner_text_spec(payload@, outer@),
        r.1@ == sender_spec(outer@),
{
    let text = match crate::ui::str_member(outer, "payloadText") {
        Some(t) => t,
        None => crate::text::copy_str(payload),
    };
    let addr = match crate::ui::str_member(outer, "addr") {
        Some(a) => a,
        None => String::new(),
    };
    (text, addr)
}

/// Whether the inner message asks for the configuration.
pub open spec fn is_config_pull_spec(inner: JsonModel) -> bool {
    as_str_spec(get_spec(inner, "tag"@)) == Some("cfg-pull"@)
}

/// The band to push the configuration to (empty meaning every band) when the
/// inner message is a config pull from `addr`.
pub fn config_pull_target(inner: &Json, addr: String) -> (r: Option<String>)
    ensures
        r is Some <==> is_config_pull_spec(inner@),
        r matches Some(a) ==> a == addr,
{
    match crate::ui::str_member(inner, "tag") {
        Some(tag) => {
            if crate::text::str_eq(tag.as_str(), "cfg-pull") {
                Some(addr)
            } else {
                None
            }
        },
        None => None,
    }
}

/// The band a message asks the configuration to be pushed to: when the
/// payload and its inner text are JSON and the inner message is a config pull,
/// the sender's address (empty meaning every band).
pub open spec fn config_pull_spec(payload: Seq<char>) -> Option<Seq<char>> {
    match parsed_json(payload) {
        None => None,
        Some(o) => match parsed_json(inner_text_spec(payload, o)) {
            None => None,
            Some(i) => if is_config_pull_spec(i) {
                Some(sender_spec(o))
            } else {
                None
            },
        },
    }
}

/// Reads a message from the quick app (`handle_interconnect`): the band to
/// push the configuration to when it is a config pull, `None` otherwise.
pub fn handle_interconnect(payload: &str) -> (r: Option<String>)
    ensures
        r is Some <==> config_pull_spec(payload@) is Some,
        r matches Some(a) ==> a@ == config_pull_spec(payload@).unwrap(),
{
    let outer = match parse_json(payload) {
        Some(o) => o,
        None => return None,
    };
    let (text, addr) = interconnect_envelope(payload, &outer);
    let inner = match parse_json(text.as_str()) {
        Some(i) => i,
        None => return None,
    };
    config_pull_target(&inner, addr)
}

} // verus!
