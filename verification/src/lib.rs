//! Core of a small MQTT 3.1.1 client, in two variants that share one design
//! problem: keep a single session alive over an unreliable transport.
//!
//! - [`packets`] is the wire codec: pure functions that build CONNECT,
//!   SUBSCRIBE and PUBLISH frames and validate or parse CONNACK and PUBLISH
//!   frames, each pinned to a byte-level specification.
//! - [`reading`] decodes the JSON sensor payload carried by PUBLISH packets.
//! - [`read_loop`] classifies one inbound chunk and forwards a decoded
//!   reading to a storage sink.
//! - [`supervisor`] is the connection state machine of the server variant:
//!   connect, handshake, subscribe, read, reconnect after a fixed delay.
//! - [`client`] is the constrained single-socket variant with an explicit
//!   two-state (disconnected/connected) discipline.
//! - [`query`] and [`api`] are the thin boundary to the storage and HTTP
//!   collaborators: only their validation rules and shell types live here.
//!
//! All I/O (sockets, timers, signals) lives outside the library; the library
//! states what is decided and sent for every outcome the transport can
//! produce.

pub mod api;
pub mod client;
pub mod error;
pub mod packets;
pub mod query;
pub mod read_loop;
pub mod reading;
pub mod supervisor;
