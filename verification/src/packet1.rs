use vstd::prelude::*;
use vstd::std_specs::convert::{FromSpec, FromSpecImpl};

verus! {

/// Body of a `Handshake` packet of the first protocol version.
#[derive(Debug, Clone, PartialEq)]
pub struct HandshakeSpec {
    pub payload: i64,
}

/// Body of a `Message` packet of the first protocol version.
#[derive(Debug, Clone, PartialEq)]
pub struct MessageSpec {
    pub payload: String,
}

/// The packets of the first protocol version, which has no key exchange.
#[derive(Debug, Clone, PartialEq)]
pub enum Packet1 {
    Handshake(HandshakeSpec),
    Message(MessageSpec),
}

impl From<i64> for HandshakeSpec {
    fn from(other: i64) -> (r: Self)
        ensures
            r.payload == other,
    {
        HandshakeSpec { payload: other }
    }
}

impl FromSpecImpl<i64> for HandshakeSpec {
    open spec fn obeys_from_spec() -> bool {
        true
    }

    open spec fn from_spec(other: i64) -> Self {
        HandshakeSpec { payload: other }
    }
}

impl From<HandshakeSpec> for i64 {
    fn from(other: HandshakeSpec) -> (r: Self)
        ensures
            r == other.payload,
    {
        other.payload
    }
}

impl FromSpecImpl<HandshakeSpec> for i64 {
    open spec fn obeys_from_spec() -> bool {
        true
    }

    open spec fn from_spec(other: HandshakeSpec) -> Self {
        other.payload
    }
}

impl From<String> for MessageSpec {
    fn from(other: String) -> (r: Self)
        ensures
            r.payload == other,
    {
        MessageSpec { payload: other }
    }
}

impl FromSpecImpl<String> for MessageSpec {
    open spec fn obeys_from_spec() -> bool {
        true
    }

    open spec fn from_spec(other: String) -> Self {
        MessageSpec { payload: other }
    }
}

impl From<MessageSpec> for String {
    fn from(other: MessageSpec) -> (r: Self)
        ensures
            r == other.payload,
    {
        other.payload
    }
}

impl FromSpecImpl<MessageSpec> for String {
    open spec fn obeys_from_spec() -> bool {
        true
    }

    open spec fn from_spec(other: MessageSpec) -> Self {
        other.payload
    }
}

/// Turning a handshake payload into its body and back gives the payload
/// again, and turning a body into its payload and back gives the body again.
pub proof fn handshake_body_round_trip(payload: i64, body: HandshakeSpec)
    ensures
        <i64 as FromSpec<HandshakeSpec>>::from_spec(
            <HandshakeSpec as FromSpec<i64>>::from_spec(payload),
        ) == payload,
        <HandshakeSpec as FromSpec<i64>>::from_spec(
            <i64 as FromSpec<HandshakeSpec>>::from_spec(body),
        ) == body,
{
}

/// Turning a message text into its body and back gives the text again, and
/// turning a body into its text and back gives the body again.
pub proof fn message_body_round_trip(payload: String, body: MessageSpec)
    ensures
        <String as FromSpec<MessageSpec>>::from_spec(
            <MessageSpec as FromSpec<String>>::from_spec(payload),
        ) == payload,
        <MessageSpec as FromSpec<String>>::from_spec(
            <String as FromSpec<MessageSpec>>::from_spec(body),
        ) == body,
{
}

/// Building a first-version body from its payload stores that payload
/// unchanged, and turning a body back into its payload reads the stored field.
pub proof fn body_conversions_keep_the_payload(
    payload: i64,
    text: String,
    handshake: HandshakeSpec,
    message: MessageSpec,
)
    ensures
        <HandshakeSpec as FromSpec<i64>>::from_spec(payload).payload == payload,
        <i64 as FromSpec<HandshakeSpec>>::from_spec(handshake) == handshake.payload,
        <MessageSpec as FromSpec<String>>::from_spec(text).payload == text,
        <String as FromSpec<MessageSpec>>::from_spec(message) == message.payload,
{
}

} // verus!
