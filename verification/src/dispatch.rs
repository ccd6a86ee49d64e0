//! The dispatch protocol: what crosses the boundary between the host and a
//! handler, in either direction.

use crate::capability::CapabilitySet;
use crate::host::Host;
use vstd::prelude::*;

verus! {

/// The namespace of a handler: a command that the host invokes, or an event
/// that the host broadcasts.
#[derive(Clone, Copy, Debug, PartialEq, Eq, Structural)]
pub enum Kind {
    Command,
    Event,
}

/// A handler's result together with the string that tells the host what kind
/// of result it is. The runtime passes the payload on and never reads it.
#[derive(Clone, Debug, PartialEq, Eq)]
pub struct Tagged<P> {
    pub tag: String,
    pub payload: P,
}

/// `serde_json::Value`, the structured value that the host hands to a
/// handler. The runtime passes it on and sees nothing inside it.
#[verifier::external_type_specification]
#[verifier::external_body]
pub struct ExJsonValue(serde_json::Value);

/// The members of a JSON object whose value is a string, by name. A value
/// that is no object has none.
pub uninterp spec fn json_text_members(value: serde_json::Value) -> Map<Seq<char>, Seq<char>>;

/// `serde_json::Value::get` with a string index, followed by
/// `serde_json::Value::as_str`: the string that the member `name` of an
/// object holds. The result is `None` where the value is no object, has no
/// such member, or holds something other than a string under that name.
#[verifier::external_body]
fn text_member(value: &serde_json::Value, name: &str) -> (text: Option<String>)
    ensures
        text is Some <==> json_text_members(*value).contains_key(name@),
        text matches Some(t) ==> t@ == json_text_members(*value)[name@],
{
    value.get(name).and_then(serde_json::Value::as_str).map(str::to_owned)
}

/// The text that an inbound message carries: the string under `content`, and
/// the empty text where there is none.
pub open spec fn content_text(data: serde_json::Value) -> Seq<char> {
    if json_text_members(data).contains_key("content"@) {
        json_text_members(data)["content"@]
    } else {
        Seq::empty()
    }
}

/// Reads the content of an inbound message. A message of another shape is
/// read as one with empty content.
pub fn content_of(data: &serde_json::Value) -> (content: String)
    ensures
        content@ == content_text(*data),
{
    text_or_empty(text_member(data, "content"))
}

/// The text of `member`, and the empty text where there is none.
pub fn text_or_empty(member: Option<String>) -> (text: String)
    ensures
        text@ == (match member {
            Some(t) => t@,
            None => Seq::empty(),
        }),
{
    match member {
        Some(text) => text,
        None => String::new(),
    }
}

/// The name of the event that the host broadcasts when the content of the
/// editor has changed.
pub open spec fn content_changed() -> Seq<char> {
    "content.changed"@
}

/// Plugin-supplied logic that the registry binds to a command or an event.
pub trait Handler<B: Host> {
    /// What the handler's results carry.
    type Payload;

    /// Whether `out` may be the handler's answer to `input` when it runs
    /// with `capabilities` and takes the host from `before` to `after`.
    /// `None` stands for "no result". A handler that does not say otherwise
    /// may answer anything and leave the host in any state.
    open spec fn yields(
        &self,
        input: serde_json::Value,
        capabilities: Set<Seq<char>>,
        before: B,
        out: Option<Tagged<Self::Payload>>,
        after: B,
    ) -> bool {
        true
    }

    /// Answers `input`. What the handler asks of the host goes through the
    /// bridge, with the capabilities of its instance.
    fn handle(
        &self,
        input: &serde_json::Value,
        capabilities: &CapabilitySet,
        host: &mut B,
    ) -> (out: Option<Tagged<Self::Payload>>)
        ensures
            self.yields(*input, capabilities@, *old(host), out, *final(host)),
    ;
}

} // verus!
