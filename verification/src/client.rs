//! The constrained client variant: one socket, one task, no background
//! reconnection.
//!
//! [`MqttClient`] performs the connect/handshake/publish steps inline over a
//! caller-supplied [`Transport`]; [`MqttConnector`] wraps it in an explicit
//! two-state machine. A publish failure flushes and aborts the socket and
//! drops back to the disconnected state; the surrounding control loop is
//! responsible for calling `connect` again before the next publish.

use vstd::prelude::*;
use vstd::slice::slice_to_vec;

use crate::error::SensorError;
use crate::packets::{
    build_connect_packet, decode, encode_publish, spec_connect_fits, spec_publish_fits, Packet,
};

verus! {

/// What one bounded CONNACK read produced: the bytes, a transport error, or
/// the 5-second handshake timeout.
#[derive(Debug)]
pub enum ConnackRead {
    Bytes(Vec<u8>),
    ReadError,
    TimedOut,
}

/// The single socket the caller owns exclusively. The library decides; an
/// implementation only moves bytes, and every method may fail or return
/// anything — the client's contracts hold for every outcome.
pub trait Transport {
    /// Opens the connection to the broker endpoint the transport was built
    /// for.
    fn connect(&mut self) -> Result<(), ()>;

    /// Writes a whole frame.
    fn write_all(&mut self, bytes: &[u8]) -> Result<(), ()>;

    /// Reads the four handshake bytes, bounded by the handshake timeout.
    fn read_connack(&mut self) -> ConnackRead;

    /// Flushes buffered output.
    fn flush(&mut self) -> Result<(), ()>;

    /// Drops the connection immediately.
    fn abort(&mut self);
}

/// The inline (synchronous) MQTT client of the constrained variant.
pub struct MqttClient<T: Transport> {
    transport: T,
    client_id: Vec<u8>,
}

impl<T: Transport> MqttClient<T> {
    /// The configured client identifier.
    pub closed spec fn client_id(&self) -> Seq<u8> {
        self.client_id@
    }

    /// A client over its socket; the identifier must stay under the
    /// 64-byte identifier bound.
    pub fn new(transport: T, id: &[u8]) -> (c: MqttClient<T>)
        requires
            id@.len() < 64,
        ensures
            c.client_id() == id@,
    {
        MqttClient { transport, client_id: slice_to_vec(id) }
    }

    /// Connect and handshake inline: open the transport, send CONNECT, read
    /// four bytes racing the timeout, and accept only an accepting CONNACK.
    ///
    /// `Ok` requires every step to have succeeded; an identifier whose
    /// CONNECT frame overflows the encode buffer can never connect and
    /// yields `Protocol` once the transport is open.
    pub fn connect(&mut self) -> (r: Result<(), SensorError>)
        ensures
            final(self).client_id() == old(self).client_id(),
            !spec_connect_fits(old(self).client_id()) ==> !(r is Ok),
            !(r == Err::<(), SensorError>(SensorError::Measurement)),
            !(r == Err::<(), SensorError>(SensorError::Disconnected)),
    {
        if self.transport.connect().is_err() {
            return Err(SensorError::Network);
        }
        let packet = match build_connect_packet(self.client_id.as_slice()) {
            Ok(p) => p,
            Err(_) => {
                return Err(SensorError::Protocol);
            },
        };
        if self.transport.write_all(packet.as_slice()).is_err() {
            return Err(SensorError::Network);
        }
        match self.transport.read_connack() {
            ConnackRead::TimedOut => Err(SensorError::Timeout),
            ConnackRead::ReadError => Err(SensorError::Network),
            ConnackRead::Bytes(b) => {
                if b.len() == 0 {
                    return Err(SensorError::Protocol);
                }
                match decode(b.as_slice()) {
                    Ok(Packet::Connack { return_code }) => {
                        if return_code == 0 {
                            Ok(())
                        } else {
                            Err(SensorError::Protocol)
                        }
                    },
                    _ => Err(SensorError::Protocol),
                }
            },
        }
    }

    /// Encodes and writes one QoS-0 PUBLISH. A frame that would overflow
    /// the 256-byte buffer fails with `Protocol` before touching the
    /// transport; a write failure is `Network`.
    pub fn publish(&mut self, topic: &[u8], data: &[u8]) -> (r: Result<(), SensorError>)
        ensures
            final(self).client_id() == old(self).client_id(),
            !spec_publish_fits(topic@, data@) <==> r == Err::<(), SensorError>(
                SensorError::Protocol,
            ),
            spec_publish_fits(topic@, data@) ==> r is Ok || r == Err::<(), SensorError>(
                SensorError::Network,
            ),
    {
        let packet = match encode_publish(topic, data) {
            Ok(p) => p,
            Err(_) => {
                return Err(SensorError::Protocol);
            },
        };
        match self.transport.write_all(packet.as_slice()) {
            Ok(()) => Ok(()),
            Err(_) => Err(SensorError::Network),
        }
    }

    /// Flushes and aborts the socket; a flush failure is `Network` and
    /// leaves the socket unaborted, as the caller may retry.
    pub fn disconnect(&mut self) -> (r: Result<(), SensorError>)
        ensures
            final(self).client_id() == old(self).client_id(),
            r is Ok || r == Err::<(), SensorError>(SensorError::Network),
    {
        if self.transport.flush().is_err() {
            return Err(SensorError::Network);
        }
        self.transport.abort();
        Ok(())
    }
}

enum MqttClientState {
    Disconnected,
    Connected,
}

/// The explicit two-state wrapper of the constrained variant:
/// `Disconnected` or `Connected`, mutated only by `connect` (to connected
/// on success) and by a publish failure (back to disconnected).
pub struct MqttConnector<T: Transport> {
    state: MqttClientState,
    client: MqttClient<T>,
}

impl<T: Transport> MqttConnector<T> {
    /// Whether the wrapper believes a session is established.
    pub closed spec fn connected(&self) -> bool {
        self.state is Connected
    }

    /// A fresh, disconnected connector.
    pub fn new(transport: T, sensor_id: &[u8]) -> (c: MqttConnector<T>)
        requires
            sensor_id@.len() < 64,
        ensures
            !c.connected(),
    {
        MqttConnector {
            client: MqttClient::new(transport, sensor_id),
            state: MqttClientState::Disconnected,
        }
    }

    /// Reads the current state.
    pub fn is_connected(&self) -> (r: bool)
        ensures
            r == self.connected(),
    {
        matches!(self.state, MqttClientState::Connected)
    }

    /// Establishes a session when there is none; a no-op when one exists.
    /// On failure the state stays disconnected and the error of the inline
    /// connect is surfaced.
    pub fn connect(&mut self) -> (r: Result<(), SensorError>)
        ensures
            old(self).connected() ==> r is Ok && final(self).connected(),
            !old(self).connected() ==> (r is Ok <==> final(self).connected()),
    {
        match self.state {
            MqttClientState::Connected => Ok(()),
            MqttClientState::Disconnected => {
                match self.client.connect() {
                    Ok(()) => {
                        self.state = MqttClientState::Connected;
                        Ok(())
                    },
                    Err(e) => Err(e),
                }
            },
        }
    }

    /// Publishes over the established session.
    ///
    /// Disconnected: fails with `Disconnected` without touching the socket
    /// and without reconnecting. Connected: any failure of the underlying
    /// publish flushes/aborts the socket, drops the state back to
    /// disconnected and surfaces `Disconnected`; the next attempt then
    /// fails the same way until `connect` is called again.
    pub fn publish(&mut self, topic: &[u8], data: &[u8]) -> (r: Result<(), SensorError>)
        ensures
            !old(self).connected() ==> r == Err::<(), SensorError>(SensorError::Disconnected)
                && !final(self).connected(),
            old(self).connected() ==> match r {
                Ok(()) => final(self).connected(),
                Err(e) => e == SensorError::Disconnected && !final(self).connected(),
            },
            old(self).connected() && spec_publish_fits(topic@, data@) && r is Err
                ==> !(final(self).connected()),
    {
        match self.state {
            MqttClientState::Disconnected => Err(SensorError::Disconnected),
            MqttClientState::Connected => {
                match self.client.publish(topic, data) {
                    Ok(()) => Ok(()),
                    Err(_) => {
                        let _ = self.client.disconnect();
                        self.state = MqttClientState::Disconnected;
                        Err(SensorError::Disconnected)
                    },
                }
            },
        }
    }
}

} // verus!
