use crate::encrypt::{aes128_base64_encrypt, Encryptor};
use crate::packet::{EnableEncryptionSpec, Packet};
use crate::protocol::{
    agree, agreed_secret, decoded_public_key, derived_public_key, fresh_secret, from_bytes,
    is_point_encoding, is_public_key, public_key_of, to_bytes,
};
use ristretto255_dh::{EphemeralSecret, PublicKey, SharedSecret};
use vstd::prelude::*;

verus! {

/// Used to identify the source of a packet in a public collection channel.
pub struct PacketContainer {}

/// Why a key exchange step was refused.
#[derive(Debug, Clone, Copy, PartialEq, Eq)]
pub enum HandshakeError {
    /// The packet was not an `EnableEncryption` packet.
    UnexpectedPacket,
    /// The packet's public key bytes are not the encoding of a point.
    InvalidPublicKey,
}

/// `packet` is an encryption request or reply whose key bytes decode.
pub open spec fn carries_public_key(packet: Packet) -> bool {
    packet matches Packet::EnableEncryption(body) && is_point_encoding(body.public@)
}

/// `packet` announces exactly the public key `key`: it is an
/// `EnableEncryption` packet whose bytes decode to that key.
pub open spec fn announces(packet: Packet, key: PublicKey) -> bool {
    packet matches Packet::EnableEncryption(body) && decoded_public_key(body.public@) == Some(key)
}

/// `state` holds a secret and the public key derived from it.
pub open spec fn holds_key_pair(state: EncryptionState) -> bool {
    state.secret matches Some(secret) && state.public == Some(derived_public_key(secret))
}

/// How a key exchange step judges the packet it was handed.
pub open spec fn exchange_outcome(packet: Packet) -> Result<(), HandshakeError> {
    match packet {
        Packet::EnableEncryption(body) => if is_point_encoding(body.public@) {
            Ok(())
        } else {
            Err(HandshakeError::InvalidPublicKey)
        },
        _ => Err(HandshakeError::UnexpectedPacket),
    }
}

/// A packet that carries a decodable public key is accepted by every
/// exchange step, and a packet that does not is refused.
pub proof fn exchange_accepts_exactly_key_packets(packet: Packet)
    ensures
        exchange_outcome(packet) is Ok <==> carries_public_key(packet),
{
}

/// The key material of one end of a connection and, once the exchange is
/// done, the cipher that protects what it sends.
pub struct EncryptionState {
    pub secret: Option<EphemeralSecret>,
    pub public: Option<PublicKey>,
    pub shared: Option<SharedSecret>,
    pub encryptor: Option<Encryptor>,
}

impl EncryptionState {
    /// No keys and no cipher yet.
    pub fn new() -> (state: Self)
        ensures
            state.secret is None,
            state.public is None,
            state.shared is None,
            state.encryptor is None,
    {
        EncryptionState { secret: None, public: None, shared: None, encryptor: None }
    }

    /// Makes `secret` this end's secret and derives the public key from it,
    /// replacing whatever key pair was held before.
    pub fn install_keys(&mut self, secret: EphemeralSecret)
        ensures
            final(self).secret == Some(secret),
            final(self).public == Some(derived_public_key(secret)),
            final(self).shared == old(self).shared,
            final(self).encryptor == old(self).encryptor,
    {
        self.public = Some(public_key_of(&secret));
        self.secret = Some(secret);
    }

    /// Draws a fresh secret and derives this end's public key from it.
    pub fn generate_keys(&mut self)
        ensures
            holds_key_pair(*final(self)),
            final(self).shared == old(self).shared,
            final(self).encryptor == old(self).encryptor,
    {
        self.install_keys(fresh_secret());
    }

    /// The `EnableEncryption` packet that announces this end's public key.
    fn own_key_packet(&self) -> (packet: Packet)
        requires
            self.public is Some,
        ensures
            announces(packet, self.public->0),
            carries_public_key(packet),
    {
        let public = to_bytes(self.public.unwrap());
        Packet::EnableEncryption(EnableEncryptionSpec { public })
    }

    /// Starts an exchange with the given freshly drawn secret: it replaces
    /// any key pair held before, and the request announces the public key
    /// derived from it.
    pub fn start_exchange_with(&mut self, secret: EphemeralSecret) -> (request: Packet)
        ensures
            final(self).secret == Some(secret),
            final(self).public == Some(derived_public_key(secret)),
            final(self).shared == old(self).shared,
            final(self).encryptor == old(self).encryptor,
            announces(request, derived_public_key(secret)),
            carries_public_key(request),
    {
        self.install_keys(secret);
        self.own_key_packet()
    }

    /// Starts an exchange: draws a fresh secret and returns the request that
    /// announces the public key derived from it.
    pub fn start_exchange(&mut self) -> (request: Packet)
        ensures
            holds_key_pair(*final(self)),
            final(self).shared == old(self).shared,
            final(self).encryptor == old(self).encryptor,
            announces(request, final(self).public->0),
            carries_public_key(request),
    {
        self.start_exchange_with(fresh_secret())
    }

    /// Completes an exchange this end started, with the peer's reply. On an
    /// `EnableEncryption` reply, and when this end holds a secret, the
    /// shared secret is derived and the cipher is keyed with the peer's
    /// public key bytes. Any other reply is refused and nothing changes.
    pub fn finish_exchange(&mut self, reply: &Packet) -> (result: Result<(), HandshakeError>)
        ensures
            result == exchange_outcome(*reply),
            final(self).secret == old(self).secret,
            final(self).public == old(self).public,
            result is Err ==> *final(self) == *old(self),
            result is Ok && old(self).secret is None ==> *final(self) == *old(self),
            result is Ok && old(self).secret is Some ==> {
                &&& reply matches Packet::EnableEncryption(body)
                &&& decoded_public_key(body.public@) matches Some(peer)
                &&& final(self).shared == Some(agreed_secret(old(self).secret->0, peer))
                &&& final(self).encryptor matches Some(e)
                &&& e@ == body.public@
            },
    {
        match reply {
            Packet::EnableEncryption(body) => {
                if !is_public_key(body.public) {
                    return Err(HandshakeError::InvalidPublicKey);
                }
                let peer = from_bytes(body.public);
                match &self.secret {
                    Some(secret) => {
                        self.shared = Some(agree(secret, &peer));
                        self.encryptor = Some(Encryptor::from_bytes(body.public));
                    },
                    None => {},
                }
                Ok(())
            },
            _ => Err(HandshakeError::UnexpectedPacket),
        }
    }

    /// Answers an exchange the peer started, with keys this end has already
    /// generated: on an `EnableEncryption` request the shared secret is
    /// derived (when this end holds a secret) and the reply announces this
    /// end's public key. The cipher is left as it is.
    pub fn answer_request(&mut self, request: &Packet) -> (result: Result<Packet, HandshakeError>)
        requires
            old(self).public is Some,
        ensures
            result is Ok <==> exchange_outcome(*request) is Ok,
            result matches Err(e) ==> (exchange_outcome(*request) matches Err(f) && f == e),
            result matches Ok(reply) ==> announces(reply, old(self).public->0),
            result matches Ok(reply) ==> carries_public_key(reply),
            final(self).secret == old(self).secret,
            final(self).public == old(self).public,
            final(self).encryptor == old(self).encryptor,
            result is Err || old(self).secret is None ==> final(self).shared == old(self).shared,
            result is Ok && old(self).secret is Some ==> {
                &&& request matches Packet::EnableEncryption(body)
                &&& decoded_public_key(body.public@) matches Some(peer)
                &&& final(self).shared == Some(agreed_secret(old(self).secret->0, peer))
            },
    {
        match request {
            Packet::EnableEncryption(body) => {
                if !is_public_key(body.public) {
                    return Err(HandshakeError::InvalidPublicKey);
                }
                let peer = from_bytes(body.public);
                match &self.secret {
                    Some(secret) => {
                        self.shared = Some(agree(secret, &peer));
                    },
                    None => {},
                }
                Ok(self.own_key_packet())
            },
            _ => Err(HandshakeError::UnexpectedPacket),
        }
    }

    /// Accepts an encryption request with the given freshly drawn secret:
    /// it replaces any key pair held before, the shared secret is agreed with
    /// the requester's key, the cipher is keyed with the requester's key
    /// bytes, and the reply announces the public key derived from `secret`.
    pub fn accept_request_with(&mut self, request: &EnableEncryptionSpec, secret: EphemeralSecret) -> (reply: Packet)
        requires
            is_point_encoding(request.public@),
        ensures
            final(self).secret == Some(secret),
            final(self).public == Some(derived_public_key(secret)),
            decoded_public_key(request.public@) matches Some(peer) && final(self).shared == Some(
                agreed_secret(secret, peer),
            ),
            final(self).encryptor matches Some(e) && e@ == request.public@,
            announces(reply, derived_public_key(secret)),
            carries_public_key(reply),
    {
        let peer = from_bytes(request.public);
        self.shared = Some(agree(&secret, &peer));
        self.install_keys(secret);
        self.encryptor = Some(Encryptor::from_bytes(request.public));
        self.own_key_packet()
    }

    /// Looks at a packet that arrived from the peer. An `EnableEncryption`
    /// request makes this end draw fresh keys, derive the shared secret, key
    /// its cipher with the peer's public key bytes and return the reply that
    /// announces its own public key. Any other packet is passed over.
    pub fn analyze_encryption_request(&mut self, packet: &Packet) -> (result: Result<
        Option<Packet>,
        HandshakeError,
    >)
        ensures
            !(packet is EnableEncryption) ==> {
                &&& result matches Ok(None)
                &&& *final(self) == *old(self)
            },
            packet is EnableEncryption && !carries_public_key(*packet) ==> {
                &&& result matches Err(e)
                &&& e == HandshakeError::InvalidPublicKey
                &&& *final(self) == *old(self)
            },
            carries_public_key(*packet) ==> {
                &&& holds_key_pair(*final(self))
                &&& result matches Ok(Some(reply))
                &&& announces(reply, final(self).public->0)
                &&& carries_public_key(reply)
                &&& packet matches Packet::EnableEncryption(body)
                &&& decoded_public_key(body.public@) matches Some(peer)
                &&& final(self).shared == Some(agreed_secret(final(self).secret->0, peer))
                &&& final(self).encryptor matches Some(e)
                &&& e@ == body.public@
            },
    {
        match packet {
            Packet::EnableEncryption(body) => {
                if !is_public_key(body.public) {
                    return Err(HandshakeError::InvalidPublicKey);
                }
                Ok(Some(self.accept_request_with(body, fresh_secret())))
            },
            _ => Ok(None),
        }
    }

    /// The text that goes on the wire for a serialized packet: encrypted
    /// when a cipher is set, as it is otherwise.
    pub fn frame_outgoing(&self, text: String) -> (wire: String)
        ensures
            wire@ == match self.encryptor {
                Some(e) => aes128_base64_encrypt(e@, text@),
                None => text@,
            },
    {
        match &self.encryptor {
            Some(e) => e.encrypt(text),
            None => text,
        }
    }
}

} // verus!
