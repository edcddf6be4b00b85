use std::cell::RefCell;

use mqtt_core::error::BsError;
use mqtt_core::read_loop::{handle_packet, ReadLoopResult, Repository};
use mqtt_core::reading::SensorReadingEvent;

struct RecordingRepository {
    rows: RefCell<Vec<(Vec<u8>, SensorReadingEvent)>>,
    fail: bool,
}

impl RecordingRepository {
    fn new() -> Self {
        RecordingRepository { rows: RefCell::new(Vec::new()), fail: false }
    }

    fn failing() -> Self {
        RecordingRepository { rows: RefCell::new(Vec::new()), fail: true }
    }
}

impl Repository for RecordingRepository {
    fn insert_sensor_reading(
        &self,
        topic: &[u8],
        reading: SensorReadingEvent,
    ) -> Result<(), BsError> {
        if self.fail {
            return Err(BsError::Database);
        }
        self.rows.borrow_mut().push((topic.to_vec(), reading));
        Ok(())
    }
}

fn publish_packet_bytes() -> Vec<u8> {
    vec![
        // Fixed header
        0x30, 0x38, // PUBLISH, Remaining Length = 56
        // Variable header: topic "sensor/data"
        0x00, 0x0B, // Topic length = 11
        0x73, 0x65, 0x6E, 0x73, 0x6F, 0x72, 0x2F, 0x64, 0x61, 0x74, 0x61,
        // Payload: {"t":"21.1111","p":"22.2222","h":"23.3333"}
        0x7B, 0x22, 0x74, 0x22, 0x3A, 0x22, 0x32, 0x31, 0x2E, 0x31, 0x31, 0x31, 0x31, 0x22, 0x2C,
        0x22, 0x70, 0x22, 0x3A, 0x22, 0x32, 0x32, 0x2E, 0x32, 0x32, 0x32, 0x32, 0x22, 0x2C, 0x22,
        0x68, 0x22, 0x3A, 0x22, 0x32, 0x33, 0x2E, 0x33, 0x33, 0x33, 0x33, 0x22, 0x7D,
    ]
}

#[test]
fn handle_valid_publish_packet() {
    let repo = RecordingRepository::new();
    let res = handle_packet(&repo, &publish_packet_bytes());

    assert!(res.is_ok());
    assert_eq!(res.unwrap(), ReadLoopResult::Stored);

    let rows = repo.rows.borrow();
    assert_eq!(rows.len(), 1);
    let (topic, reading) = &rows[0];
    assert_eq!(topic, &b"sensor/data".to_vec());
    let t: f64 = String::from_utf8(reading.temperature.clone()).unwrap().parse().unwrap();
    let p: f64 = String::from_utf8(reading.pressure.clone()).unwrap().parse().unwrap();
    let h: f64 = String::from_utf8(reading.humidity.clone()).unwrap().parse().unwrap();
    assert_eq!(t, 21.1111);
    assert_eq!(p, 22.2222);
    assert_eq!(h, 23.3333);
}

#[test]
fn sink_failure_propagates() {
    let repo = RecordingRepository::failing();
    assert_eq!(handle_packet(&repo, &publish_packet_bytes()), Err(BsError::Database));
}

#[test]
fn malformed_payload_propagates_protocol_error() {
    // Same framing, payload missing the h field.
    let payload = b"{\"t\":\"21.1111\",\"p\":\"22.2222\"}";
    let mut packet: Vec<u8> = vec![0x30, (2 + 11 + payload.len()) as u8, 0x00, 0x0B];
    packet.extend_from_slice(b"sensor/data");
    packet.extend_from_slice(payload);

    let repo = RecordingRepository::new();
    assert_eq!(handle_packet(&repo, &packet), Err(BsError::Protocol));
    assert_eq!(repo.rows.borrow().len(), 0);
}

#[test]
fn non_publish_packets_are_skipped() {
    let repo = RecordingRepository::new();
    // CONNACK
    assert_eq!(handle_packet(&repo, &[0x20, 0x02, 0x00, 0x00]).unwrap(), ReadLoopResult::Skipped);
    // PINGRESP
    assert_eq!(handle_packet(&repo, &[0xD0, 0x00]).unwrap(), ReadLoopResult::Skipped);
    // Truncated PUBLISH frame
    assert_eq!(handle_packet(&repo, &[0x30, 0x38]).unwrap(), ReadLoopResult::Skipped);
    assert_eq!(repo.rows.borrow().len(), 0);
}

#[test]
fn invalid_first_byte_is_unknown() {
    let repo = RecordingRepository::new();
    assert_eq!(handle_packet(&repo, &[0x0A, 0x00]).unwrap(), ReadLoopResult::Unknown);
    assert_eq!(handle_packet(&repo, &[0xFF]).unwrap(), ReadLoopResult::Unknown);
    assert_eq!(repo.rows.borrow().len(), 0);
}
