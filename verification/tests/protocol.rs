use packet_protocol::network::EncryptionState;
use packet_protocol::packet::Packet;
use packet_protocol::protocol::{from_bytes, is_public_key, received_bytes, to_bytes, PacketDirection};

#[test]
fn identity_point_encoding_is_a_public_key() {
    assert!(is_public_key([0u8; 32]));
}

#[test]
fn non_canonical_bytes_are_not_a_public_key() {
    assert!(!is_public_key([0xffu8; 32]));
}

#[test]
fn encoding_of_a_generated_key_decodes_to_the_same_key() {
    let mut state = EncryptionState::new();
    state.generate_keys();
    let key = state.public.unwrap();
    let bytes = to_bytes(key);
    assert!(is_public_key(bytes));
    assert_eq!(from_bytes(bytes), key);
    assert_eq!(to_bytes(from_bytes(bytes)), bytes);
}

#[test]
fn received_bytes_is_the_filled_prefix() {
    let buf = [1u8, 2, 3, 4, 5];
    assert_eq!(received_bytes(&buf, 3), &[1u8, 2, 3]);
    assert_eq!(received_bytes(&buf, 0), &[] as &[u8]);
    assert_eq!(received_bytes(&buf, 5), &buf[..]);
}

#[test]
fn directions_compare_by_variant() {
    assert!(PacketDirection::Both == PacketDirection::Both.clone());
    assert!(PacketDirection::ServerBound != PacketDirection::ClientBound);
}

#[test]
fn start_exchange_announces_the_generated_key() {
    let mut state = EncryptionState::new();
    let request = state.start_exchange();
    match request {
        Packet::EnableEncryption(body) => {
            assert_eq!(body.public, to_bytes(state.public.unwrap()));
        }
        _ => panic!("expected an encryption request"),
    }
}

#[test]
fn raw_body_borrows_its_bytes() {
    let bytes = [1u8, 2, 3];
    let body = packet_protocol::protocol::CEEEP { cpp: &bytes };
    assert_eq!(body.cpp, &[1u8, 2, 3]);
}
