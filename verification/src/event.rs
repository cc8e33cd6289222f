//! Recognising the dispatch event type of a raw gateway payload.

use twilight_gateway::error::ReceiveMessageError;
use twilight_gateway::{Event, EventTypeFlags};
use twilight_model::gateway::event::EventType;
use vstd::prelude::*;

verus! {

/// The type of a gateway event, carried through unread.
#[verifier::external_type_specification]
#[verifier::external_body]
pub struct ExEventType(EventType);

/// A gateway event, carried through unread.
#[verifier::external_type_specification]
#[verifier::external_body]
pub struct ExEvent(Event);

/// What twilight-gateway's `parse` gives for a payload with the event type
/// flags of bits `flags`, the gateway event converted into an `Event`: an
/// error, no event (an unknown opcode or a filtered event type), or the
/// event. A function of the payload and the flags alone.
pub uninterp spec fn gateway_parsed(json: Seq<char>, flags: u128) -> Result<Option<Event>, ReceiveMessageError>;

/// Parses a JSON gateway payload with twilight-gateway's `parse`, if its
/// event type is among the flags whose bits are `flags` (otherwise
/// `Ok(None)`), and converts the gateway event into an `Event`.
///
/// The event and the error are opaque here; the result is the one that
/// the name `gateway_parsed` gives the payload and the flags.
#[verifier::external_body]
pub(crate) fn parse_event(json: String, flags: u128) -> (r: Result<Option<Event>, ReceiveMessageError>)
    ensures
        r == gateway_parsed(json@, flags),
{
    match twilight_gateway::parse(json, EventTypeFlags::from_bits_retain(flags)) {
        Ok(Some(event)) => Ok(Some(Event::from(event))),
        Ok(None) => Ok(None),
        Err(error) => Err(error),
    }
}

/// The event types that the runner reacts to, and every other one.
#[derive(Debug, Clone, Copy)]
pub enum EventKind {
    /// `GatewayHello`.
    GatewayHello,
    /// `Ready`: the identify handshake completed.
    Ready,
    /// `Resumed`: the session was resumed.
    Resumed,
    /// Any other event type.
    Other(EventType),
}

/// What twilight-model's `GatewayEventDeserializer::from_json` finds by
/// scanning a JSON payload: its opcode (the `"op"` field) and its dispatch
/// event type name (the `"t"` field, if it is a string), or `None` where it
/// finds no opcode.
pub uninterp spec fn gateway_payload_header(json: Seq<char>) -> Option<(u8, Option<Seq<char>>)>;

/// Scans a JSON gateway payload with `GatewayEventDeserializer::from_json`
/// and returns the opcode and the event type name it found
/// (`GatewayEventDeserializer::op`, `GatewayEventDeserializer::event_type`).
///
/// The result is a function of the payload alone; it is stated through the
/// name `gateway_payload_header`, since the scan takes pages to state.
#[verifier::external_body]
pub(crate) fn payload_header(json: &str) -> (r: Option<(u8, Option<String>)>)
    ensures
        match gateway_payload_header(json@) {
            None => r is None,
            Some((op, None)) => r matches Some((o, None)) && o == op,
            Some((op, Some(name))) => r matches Some((o, Some(n))) && o == op && n@ == name,
        },
{
    match twilight_model::gateway::event::GatewayEventDeserializer::from_json(json) {
        Some(deserializer) => Some((deserializer.op(), deserializer.event_type().map(String::from))),
        None => None,
    }
}

/// What twilight-model's `EventType::try_from(&str)` gives for an event
/// type name: the event type, or `None` for a name it does not know (it
/// knows some eighty dispatch event names). A function of the name alone.
pub uninterp spec fn event_type_named(name: Seq<char>) -> Option<EventType>;

/// Converts an event type name with twilight-model's
/// `EventType::try_from(&str)`, and tells the variants that the runner reacts
/// to apart from the others.
///
/// States what the source of `try_from` shows: `"READY"` and only it gives
/// `Ready`, `"RESUMED"` and only it gives `Resumed`, and no name gives
/// `GatewayHello`. Which event type a name gives at all is stated through
/// the name `event_type_named`: `Other` carries that very type.
#[verifier::external_body]
pub(crate) fn event_kind_of_name(name: &str) -> (r: Option<EventKind>)
    ensures
        (r matches Some(EventKind::Ready)) <==> name@ == "READY"@,
        (r matches Some(EventKind::Resumed)) <==> name@ == "RESUMED"@,
        !(r matches Some(EventKind::GatewayHello)),
        r is Some <==> event_type_named(name@) is Some,
        r matches Some(EventKind::Other(t)) ==> event_type_named(name@) == Some(t),
{
    match EventType::try_from(name) {
        Ok(EventType::GatewayHello) => Some(EventKind::GatewayHello),
        Ok(EventType::Ready) => Some(EventKind::Ready),
        Ok(EventType::Resumed) => Some(EventKind::Resumed),
        Ok(other) => Some(EventKind::Other(other)),
        Err(_) => None,
    }
}

/// Whether the payload's event type name is `name`.
pub open spec fn payload_named(json: Seq<char>, name: Seq<char>) -> bool {
    gateway_payload_header(json) matches Some((_, Some(n))) && n == name
}

/// Whether the payload is the gateway's hello: its opcode is 10.
pub open spec fn payload_is_hello(json: Seq<char>) -> bool {
    gateway_payload_header(json) matches Some((op, _)) && op == 10
}

/// Whether the payload has an event type name that twilight knows.
pub open spec fn payload_known(json: Seq<char>) -> bool {
    gateway_payload_header(json) matches Some((_, Some(n))) && event_type_named(n) is Some
}

/// Whether the payload has an event type name that twilight reads as `t`.
pub open spec fn payload_typed(json: Seq<char>, t: EventType) -> bool {
    gateway_payload_header(json) matches Some((_, Some(n))) && event_type_named(n) == Some(t)
}

/// Whether `kind` is the event type that the payload `json` has:
/// `GatewayHello` exactly for the gateway's hello (opcode 10); otherwise
/// `Ready` exactly when its event type name is `"READY"`, `Resumed` exactly
/// when it is `"RESUMED"`; `Other` with the event type that twilight reads
/// from the name otherwise; and `None` exactly when it is no hello and has
/// no event type name or one that twilight does not know.
pub open spec fn extracted_kind(json: Seq<char>, kind: Option<EventKind>) -> bool {
    &&& (kind matches Some(EventKind::GatewayHello)) <==> payload_is_hello(json)
    &&& (kind matches Some(EventKind::Ready)) <==> (!payload_is_hello(json) && payload_named(json, "READY"@))
    &&& (kind matches Some(EventKind::Resumed)) <==> (!payload_is_hello(json) && payload_named(json, "RESUMED"@))
    &&& kind matches Some(EventKind::Other(t)) ==> (!payload_is_hello(json) && payload_typed(json, t))
    &&& kind is Some <==> (payload_is_hello(json) || payload_known(json))
}

/// A payload has exactly one extracted kind: two kinds that both meet
/// `extracted_kind` for the same payload are the same, down to the event
/// type inside `Other`. And a payload that is no hello, whose event type
/// name is neither `"READY"` nor `"RESUMED"`, gives `Other` with the type
/// twilight reads from its name, or nothing where it has no name twilight
/// knows.
pub proof fn law_extracted_kind_is_determined(json: Seq<char>, a: Option<EventKind>, b: Option<EventKind>)
    requires
        extracted_kind(json, a),
        extracted_kind(json, b),
    ensures
        a == b,
        !payload_is_hello(json) && !payload_named(json, "READY"@) && !payload_named(json, "RESUMED"@) ==> match a {
            Some(EventKind::Other(t)) => payload_typed(json, t),
            None => !payload_known(json),
            _ => false,
        },
        payload_is_hello(json) ==> a matches Some(EventKind::GatewayHello),
{
    match (a, b) {
        (Some(EventKind::Other(t)), Some(EventKind::Other(u))) => {
            assert(payload_typed(json, t) && payload_typed(json, u));
        },
        _ => {},
    }
}

/// Extracts the event type of a raw gateway payload without deserializing
/// the whole event, as `extracted_kind` states.
pub fn extract_event_type(json: &str) -> (r: Option<EventKind>)
    ensures
        extracted_kind(json@, r),
{
    match payload_header(json) {
        Some((op, name)) => {
            if op == 10 {
                Some(EventKind::GatewayHello)
            } else {
                match name {
                    Some(name) => event_kind_of_name(name.as_str()),
                    None => None,
                }
            }
        },
        None => None,
    }
}

} // verus!
