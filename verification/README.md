# packet_protocol

A small client/server message protocol: JSON packets over TCP, a
Diffie-Hellman key exchange over Ristretto255, and AES-128 encryption of
outgoing packets once the exchange is done.

- `src/` is the verified library (Verus): the packet types and their
  conversions (`packet`, `packet1`), key encodings and receive framing
  (`protocol`), the cipher (`encrypt`), and the key-exchange state machine
  with outgoing framing (`network`).
- `app/` is the program around it: sockets, tokio tasks, JSON (serde) and
  the main loop.
- `tests/` runs the library with the real outside crates.
