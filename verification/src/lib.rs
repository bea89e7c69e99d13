//! Peer-to-peer transport primitives: a uniform fixed-width codec for
//! endpoint addresses (IPv4, IPv6 and Tor v3 identities, optionally carrying
//! a port and a transport tag) and the incremental assembly buffer for the
//! fixed-length handshake messages exchanged when a session is established.

pub mod addr;
pub mod ceremony;
