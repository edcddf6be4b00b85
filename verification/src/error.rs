//! Error kinds of the two client variants.
//!
//! Transport and protocol failures during connect or handshake are recovered
//! by the supervisor's retry loop; failures during steady-state read and
//! dispatch propagate and invalidate the connection.

use vstd::prelude::*;

verus! {

/// Errors of the server-side variant.
///
/// `Network` is an I/O failure on the transport, `Protocol` a malformed or
/// unexpected packet (including a rejected handshake and an encode-buffer
/// overflow), `Timeout` a connect or handshake that exceeded its bound, and
/// `Database` an opaque failure propagated from the storage sink.
#[derive(Debug, Clone, Copy, PartialEq, Eq, Structural)]
pub enum BsError {
    Network,
    Protocol,
    Timeout,
    Database,
}

/// Errors of the constrained (single-socket) variant.
///
/// `Measurement` is reserved for the sensor itself; `Disconnected` reports an
/// operation attempted while no session is established.
#[derive(Debug, Clone, Copy, PartialEq, Eq, Structural)]
pub enum SensorError {
    Measurement,
    Network,
    Protocol,
    Timeout,
    Disconnected,
}

} // verus!
