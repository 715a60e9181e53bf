//! Packets, key exchange and packet encryption for a small client/server
//! message protocol.
pub mod encrypt;
pub mod network;
pub mod packet;
pub mod packet1;
pub mod protocol;
