use mqtt_core::error::BsError;
use mqtt_core::packets::{
    build_connect_packet, build_subscribe_packet, decode, encode_publish, is_mqtt_packet,
    parse_connack, Packet,
};

#[test]
fn connect_packet_exact_bytes() {
    let packet = build_connect_packet(b"bs").unwrap();
    let expected: Vec<u8> = vec![
        0x10, 14, 0x00, 0x04, 0x4D, 0x51, 0x54, 0x54, 0x04, 0x02, 0x00, 0x78, 0x00, 0x02, 0x62,
        0x73,
    ];
    assert_eq!(packet, expected);
}

#[test]
fn connect_packet_overflow_is_protocol_error() {
    let id = [0x61u8; 51];
    assert_eq!(build_connect_packet(&id), Err(BsError::Protocol));
    let id = [0x61u8; 50];
    assert!(build_connect_packet(&id).is_ok());
}

#[test]
fn subscribe_packet_exact_bytes() {
    let packet = build_subscribe_packet(b"sensor/update").unwrap();
    let mut expected: Vec<u8> = vec![0x82, 18, 0x00, 0x01, 0x00, 13];
    expected.extend_from_slice(b"sensor/update");
    expected.push(0x00);
    assert_eq!(packet, expected);
}

#[test]
fn subscribe_packet_overflow_is_protocol_error() {
    let topic = [0x74u8; 58];
    assert_eq!(build_subscribe_packet(&topic), Err(BsError::Protocol));
}

#[test]
fn publish_packet_exact_bytes() {
    let packet = encode_publish(b"sensor/update", b"{}").unwrap();
    let mut expected: Vec<u8> = vec![0x30, 17, 0x00, 13];
    expected.extend_from_slice(b"sensor/update");
    expected.extend_from_slice(b"{}");
    assert_eq!(packet, expected);
}

#[test]
fn publish_round_trip_short() {
    let topic = b"sensor/data";
    let payload = b"{\"t\":\"1\",\"p\":\"2\",\"h\":\"3\"}";
    let bytes = encode_publish(topic, payload).unwrap();
    match decode(&bytes).unwrap() {
        Packet::Publish { topic: t, payload: p } => {
            assert_eq!(t, topic.to_vec());
            assert_eq!(p, payload.to_vec());
        }
        other => panic!("expected a publish packet, got {:?}", other),
    }
}

#[test]
fn publish_round_trip_two_byte_remaining_length() {
    let topic = b"sensor/update";
    let payload = [0x41u8; 200];
    let bytes = encode_publish(topic, &payload).unwrap();
    assert_eq!(bytes[0], 0x30);
    assert!(bytes[1] >= 128);
    match decode(&bytes).unwrap() {
        Packet::Publish { topic: t, payload: p } => {
            assert_eq!(t, topic.to_vec());
            assert_eq!(p, payload.to_vec());
        }
        other => panic!("expected a publish packet, got {:?}", other),
    }
}

#[test]
fn publish_overflow_is_protocol_error() {
    let payload = [0x42u8; 249];
    assert_eq!(encode_publish(b"abc", &payload), Err(BsError::Protocol));
    let payload = [0x42u8; 248];
    assert!(encode_publish(b"abc", &payload).is_ok());
}

#[test]
fn connect_round_trip() {
    let bytes = build_connect_packet(b"outside_sensor").unwrap();
    match decode(&bytes).unwrap() {
        Packet::Connect { protocol_level, keep_alive, client_id, clean_session } => {
            assert_eq!(protocol_level, 4);
            assert_eq!(keep_alive, 120);
            assert_eq!(client_id, b"outside_sensor".to_vec());
            assert!(clean_session);
        }
        other => panic!("expected a connect packet, got {:?}", other),
    }
}

#[test]
fn subscribe_round_trip() {
    let bytes = build_subscribe_packet(b"sensor/update").unwrap();
    match decode(&bytes).unwrap() {
        Packet::Subscribe { topic } => assert_eq!(topic, b"sensor/update".to_vec()),
        other => panic!("expected a subscribe packet, got {:?}", other),
    }
}

#[test]
fn parse_connack_accepts_only_the_exact_accepted_frame() {
    assert!(parse_connack(&[0x20, 0x02, 0x00, 0x00]));
    assert!(parse_connack(&[0x20, 0x02, 0x01, 0x00]));
    assert!(parse_connack(&[0x20, 0x02, 0xFF, 0x00]));
    assert!(!parse_connack(&[0x20, 0x02, 0x00, 0x01]));
    assert!(!parse_connack(&[0x20, 0x02, 0x00, 0x05]));
    assert!(!parse_connack(&[0x21, 0x02, 0x00, 0x00]));
    assert!(!parse_connack(&[0x20, 0x03, 0x00, 0x00]));
    assert!(!parse_connack(&[0x20, 0x02, 0x00]));
    assert!(!parse_connack(&[0x20, 0x02, 0x00, 0x00, 0x00]));
    assert!(!parse_connack(&[]));
}

#[test]
fn parse_connack_all_four_byte_patterns_on_three_varying_bytes() {
    // Sweep bytes 0, 1 and 3; the flags byte (index 2) is free.
    for b0 in 0..=255u8 {
        for b1 in [0x00u8, 0x02, 0x20, 0xFF] {
            for b3 in [0x00u8, 0x01, 0x20, 0xFF] {
                let accepted = parse_connack(&[b0, b1, 0x00, b3]);
                assert_eq!(accepted, b0 == 0x20 && b1 == 0x02 && b3 == 0x00);
            }
        }
    }
}

#[test]
fn control_packet_classification_all_bytes() {
    for b in 0..=255u8 {
        let nibble = b >> 4;
        assert_eq!(is_mqtt_packet(b), (1..=14).contains(&nibble));
    }
}

#[test]
fn decode_classifies_garbage_as_unknown() {
    assert_eq!(decode(&[0x0F, 0x00]).unwrap(), Packet::Unknown);
    assert_eq!(decode(&[0xF0]).unwrap(), Packet::Unknown);
    assert_eq!(decode(&[0x05]).unwrap(), Packet::Unknown);
}

#[test]
fn decode_connack_reads_the_return_code() {
    match decode(&[0x20, 0x02, 0x00, 0x05]).unwrap() {
        Packet::Connack { return_code } => assert_eq!(return_code, 5),
        other => panic!("expected a connack packet, got {:?}", other),
    }
}

#[test]
fn decode_rejects_truncated_publish() {
    // Claims 56 bytes remaining but carries none.
    assert_eq!(decode(&[0x30, 0x38]), Err(BsError::Protocol));
}

#[test]
fn decode_rejects_unmodeled_recognized_types() {
    // PINGRESP is a recognized control type outside the modeled subset.
    assert_eq!(decode(&[0xD0, 0x00]), Err(BsError::Protocol));
}
