use packet_protocol::encrypt::Encryptor;
use packet_protocol::network::{EncryptionState, HandshakeError, PacketContainer};
use packet_protocol::packet::{EnableEncryptionSpec, HandshakeSpec, MessageSpec, Packet};

fn key_of(packet: &Packet) -> [u8; 32] {
    match packet {
        Packet::EnableEncryption(body) => body.public,
        _ => panic!("expected an EnableEncryption packet"),
    }
}

#[test]
fn new_state_holds_nothing() {
    let s = EncryptionState::new();
    assert!(s.secret.is_none() && s.public.is_none() && s.shared.is_none() && s.encryptor.is_none());
    let _container = PacketContainer {};
}

#[test]
fn full_exchange_keys_each_side_with_the_peer_public_key() {
    let mut client = EncryptionState::new();
    let mut server = EncryptionState::new();
    let request = client.start_exchange();
    let reply = server.analyze_encryption_request(&request).unwrap().unwrap();
    assert!(client.finish_exchange(&reply).is_ok());

    assert!(client.shared.is_some() && server.shared.is_some());
    let text = String::from("ping");
    let client_cipher = client.encryptor.as_ref().unwrap().encrypt(text.clone());
    assert_eq!(client_cipher, Encryptor::from_bytes(key_of(&reply)).encrypt(text.clone()));
    let server_cipher = server.encryptor.as_ref().unwrap().encrypt(text.clone());
    assert_eq!(server_cipher, Encryptor::from_bytes(key_of(&request)).encrypt(text));
}

#[test]
fn finish_refuses_a_packet_that_is_not_a_reply() {
    let mut client = EncryptionState::new();
    client.start_exchange();
    let r = client.finish_exchange(&Packet::Message(MessageSpec { payload: String::from("x") }));
    assert_eq!(r, Err(HandshakeError::UnexpectedPacket));
    assert!(client.encryptor.is_none() && client.shared.is_none());
}

#[test]
fn finish_refuses_bytes_that_are_no_key() {
    let mut client = EncryptionState::new();
    client.start_exchange();
    let bad = Packet::EnableEncryption(EnableEncryptionSpec { public: [0xffu8; 32] });
    assert_eq!(client.finish_exchange(&bad), Err(HandshakeError::InvalidPublicKey));
    assert!(client.encryptor.is_none());
}

#[test]
fn finish_without_a_secret_accepts_but_sets_nothing() {
    let mut client = EncryptionState::new();
    let reply = Packet::EnableEncryption(EnableEncryptionSpec { public: [0u8; 32] });
    assert_eq!(client.finish_exchange(&reply), Ok(()));
    assert!(client.encryptor.is_none() && client.shared.is_none());
}

#[test]
fn analyze_passes_over_other_packets() {
    let mut server = EncryptionState::new();
    let r = server.analyze_encryption_request(&Packet::Handshake(HandshakeSpec { payload: 3 }));
    assert_eq!(r, Ok(None));
    assert!(server.secret.is_none() && server.encryptor.is_none());
}

#[test]
fn analyze_refuses_bytes_that_are_no_key() {
    let mut server = EncryptionState::new();
    let bad = Packet::EnableEncryption(EnableEncryptionSpec { public: [0xffu8; 32] });
    assert_eq!(server.analyze_encryption_request(&bad), Err(HandshakeError::InvalidPublicKey));
    assert!(server.secret.is_none());
}

#[test]
fn answer_replies_with_the_prepared_key_and_leaves_the_cipher() {
    let mut client = EncryptionState::new();
    let mut server = EncryptionState::new();
    server.generate_keys();
    let request = client.start_exchange();
    let reply = server.answer_request(&request).unwrap();
    assert_eq!(key_of(&reply), packet_protocol::protocol::to_bytes(server.public.unwrap()));
    assert!(server.shared.is_some());
    assert!(server.encryptor.is_none());
    let other = server.answer_request(&Packet::Message(MessageSpec { payload: String::new() }));
    assert_eq!(other, Err(HandshakeError::UnexpectedPacket));
}

#[test]
fn outgoing_text_is_plain_before_the_exchange() {
    let state = EncryptionState::new();
    assert_eq!(state.frame_outgoing(String::from("{\"x\":1}")), "{\"x\":1}");
}

#[test]
fn outgoing_text_is_encrypted_after_the_exchange() {
    let mut client = EncryptionState::new();
    let mut server = EncryptionState::new();
    let request = client.start_exchange();
    let reply = server.analyze_encryption_request(&request).unwrap().unwrap();
    client.finish_exchange(&reply).unwrap();
    let wire = client.frame_outgoing(String::from("{\"x\":1}"));
    let e = Encryptor::from_bytes(key_of(&reply));
    assert_eq!(wire, e.encrypt(String::from("{\"x\":1}")));
    assert_eq!(e.decrypt(wire), Ok(String::from("{\"x\":1}")));
}

#[test]
fn both_ends_derive_the_same_shared_secret() {
    let mut client = EncryptionState::new();
    let mut server = EncryptionState::new();
    let request = client.start_exchange();
    let reply = server.analyze_encryption_request(&request).unwrap().unwrap();
    client.finish_exchange(&reply).unwrap();
    let client_shared: [u8; 32] = client.shared.take().unwrap().into();
    let server_shared: [u8; 32] = server.shared.take().unwrap().into();
    assert_eq!(client_shared, server_shared);
}

#[test]
fn reply_announces_the_responder_key_pair() {
    let mut client = EncryptionState::new();
    let mut server = EncryptionState::new();
    let request = client.start_exchange();
    let reply = server.analyze_encryption_request(&request).unwrap().unwrap();
    let server_public = server.public.unwrap();
    let derived = ristretto255_dh::PublicKey::from(server.secret.as_ref().unwrap());
    assert_eq!(server_public, derived);
    assert_eq!(key_of(&reply), packet_protocol::protocol::to_bytes(server_public));
}
