//! The read dispatcher: classifies one inbound chunk, decodes a PUBLISH
//! payload, and forwards the reading to the storage sink.
//!
//! A payload that fails to parse is a fatal error for the invocation and
//! propagates — a corrupt upstream message invalidates the connection
//! rather than being dropped. The dispatcher makes at most one decode
//! attempt per chunk; frames spanning several reads are not reassembled.

use vstd::prelude::*;

use crate::error::BsError;
use crate::packets::{decode, spec_is_mqtt_packet, spec_parse_publish, Packet};
use crate::reading::{parse_sensor_reading, spec_parse_reading, SensorReadingEvent};

verus! {

/// The outcome of processing one inbound chunk: a reading was stored,
/// a recognized-but-irrelevant packet was skipped, the loop was told to
/// stop, or the first byte carried no valid control-packet type.
#[derive(Debug, PartialEq, Eq, Structural, Clone, Copy)]
pub enum ReadLoopResult {
    Stored,
    Skipped,
    Shutdown,
    Unknown,
}

/// The storage sink, owned by the caller and only borrowed here. Any
/// implementation is substitutable, including a test double that records
/// calls.
pub trait Repository {
    /// Persists one decoded reading together with its originating topic.
    fn insert_sensor_reading(&self, topic: &[u8], reading: SensorReadingEvent) -> Result<
        (),
        BsError,
    >;
}

/// Handles one chunk read from the socket.
///
/// A chunk whose first byte is no control packet yields `Unknown`; a
/// recognized non-PUBLISH chunk (or a malformed frame) yields `Skipped`; a
/// PUBLISH whose payload decodes is handed to the sink, whose failure
/// propagates; a PUBLISH whose payload does not decode fails with
/// `Protocol`.
pub fn handle_packet<R: Repository>(repository: &R, packet: &[u8]) -> (r: Result<
    ReadLoopResult,
    BsError,
>)
    requires
        packet@.len() > 0,
    ensures
        !spec_is_mqtt_packet(packet@[0]) ==> r == Ok::<ReadLoopResult, BsError>(
            ReadLoopResult::Unknown,
        ),
        spec_is_mqtt_packet(packet@[0]) && !(packet@[0] >> 4 == 3 && spec_parse_publish(
            packet@,
        ) is Some) ==> r == Ok::<ReadLoopResult, BsError>(ReadLoopResult::Skipped),
        (match spec_parse_publish(packet@) {
            Some(tp) => packet@[0] >> 4 == 3 && spec_parse_reading(tp.1) is None ==> r
                == Err::<ReadLoopResult, BsError>(BsError::Protocol),
            None => true,
        }),
        (match spec_parse_publish(packet@) {
            Some(tp) => packet@[0] >> 4 == 3 && spec_parse_reading(tp.1) is Some ==> (r matches Ok(
                x,
            ) ==> x == ReadLoopResult::Stored),
            None => true,
        }),
        !(r == Ok::<ReadLoopResult, BsError>(ReadLoopResult::Shutdown)),
{
    match decode(packet) {
        Ok(Packet::Publish { topic, payload }) => {
            match parse_sensor_reading(payload.as_slice()) {
                Ok(reading) => {
                    match repository.insert_sensor_reading(topic.as_slice(), reading) {
                        Ok(()) => Ok(ReadLoopResult::Stored),
                        Err(e) => Err(e),
                    }
                },
                Err(e) => Err(e),
            }
        },
        Ok(Packet::Unknown) => Ok(ReadLoopResult::Unknown),
        Ok(_) => Ok(ReadLoopResult::Skipped),
        Err(_) => Ok(ReadLoopResult::Skipped),
    }
}

} // verus!
