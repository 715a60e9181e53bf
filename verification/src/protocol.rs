use rand_core::OsRng;
use ristretto255_dh::{EphemeralSecret, PublicKey, SharedSecret};
use vstd::prelude::*;

verus! {

/// Marker for the small, comparable tags that identify kinds of packets.
pub trait PacketKind: Clone + Copy + PartialEq + Eq {

}

/// Which side of a connection a packet travels towards.
#[derive(PartialEq, Clone)]
pub enum PacketDirection {
    ServerBound,
    ClientBound,
    Both,
}

#[verifier::external_type_specification]
#[verifier::external_body]
pub struct ExPublicKey(PublicKey);

#[verifier::external_type_specification]
#[verifier::external_body]
pub struct ExEphemeralSecret(EphemeralSecret);

#[verifier::external_type_specification]
#[verifier::external_body]
pub struct ExSharedSecret(SharedSecret);

/// The public key that `bytes` decodes to, if it is the canonical
/// compressed encoding of a Ristretto point.
pub uninterp spec fn decoded_public_key(bytes: Seq<u8>) -> Option<PublicKey>;

/// Whether `bytes` is the canonical compressed encoding of a Ristretto
/// point, that is, whether it decodes to a public key.
pub open spec fn is_point_encoding(bytes: Seq<u8>) -> bool {
    decoded_public_key(bytes) is Some
}

/// Calls `<PublicKey as TryFrom<[u8; 32]>>::try_from`. Trusted: the result is
/// the named decoding of `bytes`.
#[verifier::external_body]
fn decode_public_key(bytes: [u8; 32]) -> (key: Option<PublicKey>)
    ensures
        key == decoded_public_key(bytes@),
{
    PublicKey::try_from(bytes).ok()
}

/// The public key that belongs to `secret`: the Ristretto basepoint
/// multiplied by the secret scalar.
pub uninterp spec fn derived_public_key(secret: EphemeralSecret) -> PublicKey;

/// The Diffie-Hellman shared secret of `secret` and a peer's public key: the
/// peer's point multiplied by the secret scalar.
pub uninterp spec fn agreed_secret(secret: EphemeralSecret, peer: PublicKey) -> SharedSecret;

/// Calls `EphemeralSecret::new` with the operating system's random number
/// generator. Nothing is claimed of the secret: it is random.
#[verifier::external_body]
pub(crate) fn fresh_secret() -> EphemeralSecret {
    EphemeralSecret::new(&mut OsRng)
}

/// Calls `<PublicKey as From<&EphemeralSecret>>::from`. Trusted: the result
/// is the named key of `secret` (a function of the secret alone).
#[verifier::external_body]
pub(crate) fn public_key_of(secret: &EphemeralSecret) -> (key: PublicKey)
    ensures
        key == derived_public_key(*secret),
{
    PublicKey::from(secret)
}

/// Calls `EphemeralSecret::diffie_hellman`. Trusted: the result is the named
/// shared secret of `secret` and `peer` (a function of the two alone).
#[verifier::external_body]
pub(crate) fn agree(secret: &EphemeralSecret, peer: &PublicKey) -> (shared: SharedSecret)
    ensures
        shared == agreed_secret(*secret, *peer),
{
    secret.diffie_hellman(peer)
}

/// The canonical 32-byte wire encoding of a public key.
///
/// Calls `<[u8; 32] as From<PublicKey>>::from`. Trusted: the encoding
/// decodes to the same key again (the crate's own test
/// `from_into_pubkey_bytes` checks `PublicKey::try_from(bytes) == Ok(key)`),
/// and it is the only 32-byte string that decodes to this key (the crate
/// documents that two keys are equal iff their encodings are, and decoding
/// accepts canonical encodings only).
#[verifier::external_body]
pub fn to_bytes(key: PublicKey) -> (bytes: [u8; 32])
    ensures
        decoded_public_key(bytes@) == Some(key),
        forall|other: Seq<u8>|
            other.len() == 32 && #[trigger] decoded_public_key(other) == Some(key) ==> other
                == bytes@,
{
    key.into()
}

/// Whether `bytes` decodes to a public key.
pub fn is_public_key(bytes: [u8; 32]) -> (valid: bool)
    ensures
        valid == is_point_encoding(bytes@),
{
    decode_public_key(bytes).is_some()
}

/// Decodes a public key from its canonical 32-byte encoding.
pub fn from_bytes(bytes: [u8; 32]) -> (key: PublicKey)
    requires
        is_point_encoding(bytes@),
    ensures
        decoded_public_key(bytes@) == Some(key),
{
    decode_public_key(bytes).unwrap()
}

/// A borrowed packet body of raw encrypted bytes.
pub struct CEEEP<'a> {
    pub cpp: &'a [u8],
}

/// The part of a receive buffer that a read filled: its first `size` bytes.
pub fn received_bytes(buf: &[u8], size: usize) -> (frame: &[u8])
    requires
        size <= buf@.len(),
    ensures
        frame@ == buf@.subrange(0, size as int),
{
    vstd::slice::slice_subrange(buf, 0, size)
}

} // verus!
