use vstd::prelude::*;
use vstd::std_specs::convert::{FromSpec, FromSpecImpl};

verus! {

/// Body of a `Handshake` packet (sent towards the server).
#[derive(Debug, Clone, PartialEq)]
pub struct HandshakeSpec {
    pub payload: i64,
}

/// Body of a `Message` packet: a line of text.
#[derive(Debug, Clone, PartialEq)]
pub struct MessageSpec {
    pub payload: String,
}

/// Body of an `EnableEncryption` packet: the sender's public key in its
/// canonical 32-byte encoding.
#[derive(Debug, Clone, PartialEq)]
pub struct EnableEncryptionSpec {
    pub public: [u8; 32],
}

/// Every packet of the protocol.
#[derive(Debug, Clone, PartialEq)]
pub enum Packet {
    Handshake(HandshakeSpec),
    Message(MessageSpec),
    EnableEncryption(EnableEncryptionSpec),
}

impl Packet {
    /// The text a `Message` packet carries, for display; no other packet
    /// carries any.
    pub fn message_text(&self) -> (text: Option<&str>)
        ensures
            match self {
                Packet::Message(body) => text matches Some(t) && t@ == body.payload@,
                _ => text is None,
            },
    {
        match self {
            Packet::Message(body) => Some(body.payload.as_str()),
            _ => None,
        }
    }
}

impl From<i64> for HandshakeSpec {
    fn from(other: i64) -> (r: Self)
        ensures
            r.payload == other,
    {
        HandshakeSpec { payload: other }
    }
}

impl FromSpecImpl<i64> for HandshakeSpec {
    open spec fn obeys_from_spec() -> bool {
        true
    }

    open spec fn from_spec(other: i64) -> Self {
        HandshakeSpec { payload: other }
    }
}

impl From<HandshakeSpec> for i64 {
    fn from(other: HandshakeSpec) -> (r: Self)
        ensures
            r == other.payload,
    {
        other.payload
    }
}

impl FromSpecImpl<HandshakeSpec> for i64 {
    open spec fn obeys_from_spec() -> bool {
        true
    }

    open spec fn from_spec(other: HandshakeSpec) -> Self {
        other.payload
    }
}

impl From<String> for MessageSpec {
    fn from(other: String) -> (r: Self)
        ensures
            r.payload == other,
    {
        MessageSpec { payload: other }
    }
}

impl FromSpecImpl<String> for MessageSpec {
    open spec fn obeys_from_spec() -> bool {
        true
    }

    open spec fn from_spec(other: String) -> Self {
        MessageSpec { payload: other }
    }
}

impl From<MessageSpec> for String {
    fn from(other: MessageSpec) -> (r: Self)
        ensures
            r == other.payload,
    {
        other.payload
    }
}

impl FromSpecImpl<MessageSpec> for String {
    open spec fn obeys_from_spec() -> bool {
        true
    }

    open spec fn from_spec(other: MessageSpec) -> Self {
        other.payload
    }
}

impl From<[u8; 32]> for EnableEncryptionSpec {
    fn from(other: [u8; 32]) -> (r: Self)
        ensures
            r.public == other,
    {
        EnableEncryptionSpec { public: other }
    }
}

impl FromSpecImpl<[u8; 32]> for EnableEncryptionSpec {
    open spec fn obeys_from_spec() -> bool {
        true
    }

    open spec fn from_spec(other: [u8; 32]) -> Self {
        EnableEncryptionSpec { public: other }
    }
}

impl From<EnableEncryptionSpec> for [u8; 32] {
    fn from(other: EnableEncryptionSpec) -> (r: Self)
        ensures
            r == other.public,
    {
        other.public
    }
}

impl FromSpecImpl<EnableEncryptionSpec> for [u8; 32] {
    open spec fn obeys_from_spec() -> bool {
        true
    }

    open spec fn from_spec(other: EnableEncryptionSpec) -> Self {
        other.public
    }
}

/// Turning a handshake payload into its body and back gives the payload
/// again, and turning a body into its payload and back gives the body again.
pub proof fn handshake_body_round_trip(payload: i64, body: HandshakeSpec)
    ensures
        <i64 as FromSpec<HandshakeSpec>>::from_spec(
            <HandshakeSpec as FromSpec<i64>>::from_spec(payload),
        ) == payload,
        <HandshakeSpec as FromSpec<i64>>::from_spec(
            <i64 as FromSpec<HandshakeSpec>>::from_spec(body),
        ) == body,
{
}

/// Turning a message text into its body and back gives the text again, and
/// turning a body into its text and back gives the body again.
pub proof fn message_body_round_trip(payload: String, body: MessageSpec)
    ensures
        <String as FromSpec<MessageSpec>>::from_spec(
            <MessageSpec as FromSpec<String>>::from_spec(payload),
        ) == payload,
        <MessageSpec as FromSpec<String>>::from_spec(
            <String as FromSpec<MessageSpec>>::from_spec(body),
        ) == body,
{
}

/// Turning key bytes into an encryption request body and back gives the
/// bytes again, and turning a body into its bytes and back gives the body
/// again.
pub proof fn enable_encryption_body_round_trip(public: [u8; 32], body: EnableEncryptionSpec)
    ensures
        <[u8; 32] as FromSpec<EnableEncryptionSpec>>::from_spec(
            <EnableEncryptionSpec as FromSpec<[u8; 32]>>::from_spec(public),
        ) == public,
        <EnableEncryptionSpec as FromSpec<[u8; 32]>>::from_spec(
            <[u8; 32] as FromSpec<EnableEncryptionSpec>>::from_spec(body),
        ) == body,
{
}

/// Building a body from its payload stores that payload unchanged, and
/// turning a body back into its payload reads the stored field.
pub proof fn body_conversions_keep_the_payload(
    payload: i64,
    text: String,
    public: [u8; 32],
    handshake: HandshakeSpec,
    message: MessageSpec,
    request: EnableEncryptionSpec,
)
    ensures
        <HandshakeSpec as FromSpec<i64>>::from_spec(payload).payload == payload,
        <i64 as FromSpec<HandshakeSpec>>::from_spec(handshake) == handshake.payload,
        <MessageSpec as FromSpec<String>>::from_spec(text).payload == text,
        <String as FromSpec<MessageSpec>>::from_spec(message) == message.payload,
        <EnableEncryptionSpec as FromSpec<[u8; 32]>>::from_spec(public).public == public,
        <[u8; 32] as FromSpec<EnableEncryptionSpec>>::from_spec(request) == request.public,
{
}

} // verus!
