//! The wire codec: a fixed subset of MQTT 3.1.1, QoS "at most once" only.
//!
//! Every encoder writes into a bounded buffer (64 bytes for CONNECT and
//! SUBSCRIBE, 256 for PUBLISH); a frame that would overflow fails with a
//! `Protocol` error and is never truncated. Every function is pinned to a
//! byte-level specification, and decoding the bytes an encoder produced
//! returns the original packet.

use vstd::prelude::*;
use vstd::slice::{slice_subrange, slice_to_vec};

use crate::error::BsError;

verus! {

/// A wire-level packet of the modeled MQTT subset.
///
/// `Unknown` stands for a buffer whose first byte does not carry a valid
/// control-packet type; recognized types outside this subset are rejected by
/// [`decode`] with a `Protocol` error and reported by the dispatcher as
/// skipped.
#[derive(Debug, PartialEq, Eq)]
pub enum Packet {
    Connect { protocol_level: u8, keep_alive: u16, client_id: Vec<u8>, clean_session: bool },
    Connack { return_code: u8 },
    Subscribe { topic: Vec<u8> },
    Publish { topic: Vec<u8>, payload: Vec<u8> },
    Unknown,
}

/// Big-endian bytes of a 16-bit length.
pub open spec fn spec_be16(n: nat) -> Seq<u8>
    recommends
        n < 0x10000,
{
    seq![(n / 256) as u8, (n % 256) as u8]
}

/// MQTT variable-length "remaining length", restricted to the two-byte forms
/// this codec emits (`n < 16384`).
pub open spec fn spec_remaining_len(n: nat) -> Seq<u8>
    recommends
        n < 16384,
{
    if n < 128 {
        seq![n as u8]
    } else {
        seq![((n % 128) + 128) as u8, (n / 128) as u8]
    }
}

/// How many bytes `spec_remaining_len` takes for `n < 16384`.
pub open spec fn spec_remaining_len_size(n: nat) -> nat {
    if n < 128 {
        1
    } else {
        2
    }
}

/// The fixed part of the CONNECT variable header: protocol name `MQTT`,
/// protocol level 4 (3.1.1), connect flags with clean session only, and a
/// keep-alive of 120 seconds.
pub open spec fn spec_connect_header() -> Seq<u8> {
    seq![0x00u8, 0x04u8, 0x4Du8, 0x51u8, 0x54u8, 0x54u8, 0x04u8, 0x02u8, 0x00u8, 0x78u8]
}

/// Whether a CONNECT for this client identifier fits the 64-byte encode
/// buffer.
pub open spec fn spec_connect_fits(id: Seq<u8>) -> bool {
    2 + 12 + id.len() <= 64
}

/// The exact bytes of the CONNECT frame for a client identifier.
pub open spec fn spec_connect_bytes(id: Seq<u8>) -> Seq<u8> {
    seq![0x10u8] + spec_remaining_len(12 + id.len()) + spec_connect_header() + spec_be16(id.len())
        + id
}

/// Whether a single-topic SUBSCRIBE fits the 64-byte encode buffer.
pub open spec fn spec_subscribe_fits(topic: Seq<u8>) -> bool {
    2 + 5 + topic.len() <= 64
}

/// The exact bytes of the SUBSCRIBE frame: packet identifier 1, one topic,
/// QoS 0.
pub open spec fn spec_subscribe_bytes(topic: Seq<u8>) -> Seq<u8> {
    seq![0x82u8] + spec_remaining_len(5 + topic.len()) + seq![0x00u8, 0x01u8]
        + spec_be16(topic.len()) + topic + seq![0x00u8]
}

/// Whether a QoS-0 PUBLISH fits the 256-byte encode buffer.
pub open spec fn spec_publish_fits(topic: Seq<u8>, payload: Seq<u8>) -> bool {
    1 + spec_remaining_len_size(2 + topic.len() + payload.len())
        + (2 + topic.len() + payload.len()) <= 256
}

/// The exact bytes of the QoS-0 PUBLISH frame: no dup, no retain, topic, raw
/// payload.
pub open spec fn spec_publish_bytes(topic: Seq<u8>, payload: Seq<u8>) -> Seq<u8> {
    seq![0x30u8] + spec_remaining_len(2 + topic.len() + payload.len()) + spec_be16(topic.len())
        + topic + payload
}

/// Whether a first byte carries a valid MQTT control-packet type:
/// its high nibble must lie in `1..=14`.
pub open spec fn spec_is_mqtt_packet(first_byte: u8) -> bool {
    1 <= (first_byte >> 4) && (first_byte >> 4) <= 14
}

/// Whether four handshake bytes are the one CONNACK this client accepts:
/// `0x20` (CONNACK), remaining length `0x02`, any flags, return code `0x00`.
pub open spec fn spec_connack_accepted(s: Seq<u8>) -> bool {
    s.len() == 4 && s[0] == 0x20u8 && s[1] == 0x02u8 && s[3] == 0x00u8
}

fn push_remaining_len(v: &mut Vec<u8>, n: usize)
    requires
        n < 16384,
    ensures
        final(v)@ == old(v)@ + spec_remaining_len(n as nat),
{
    if n < 128 {
        v.push(n as u8);
    } else {
        v.push(((n % 128) + 128) as u8);
        v.push((n / 128) as u8);
    }
    proof {
        assert(v@ =~= old(v)@ + spec_remaining_len(n as nat));
    }
}

fn push_be16(v: &mut Vec<u8>, n: usize)
    requires
        n < 0x10000,
    ensures
        final(v)@ == old(v)@ + spec_be16(n as nat),
{
    v.push((n / 256) as u8);
    v.push((n % 256) as u8);
    proof {
        assert(v@ =~= old(v)@ + spec_be16(n as nat));
    }
}

/// Builds the CONNECT frame for a client identifier: MQTT 3.1.1, clean
/// session, 120-second keep-alive, no will and no credentials. Fails with
/// `Protocol` when the frame would overflow the 64-byte encode buffer.
pub fn build_connect_packet(client_id: &[u8]) -> (r: Result<Vec<u8>, BsError>)
    ensures
        match r {
            Ok(v) => spec_connect_fits(client_id@) && v@ == spec_connect_bytes(client_id@),
            Err(e) => !spec_connect_fits(client_id@) && e == BsError::Protocol,
        },
{
    if client_id.len() > 50 {
        return Err(BsError::Protocol);
    }
    let mut v: Vec<u8> = Vec::new();
    v.push(0x10);
    push_remaining_len(&mut v, 12 + client_id.len());
    v.push(0x00);
    v.push(0x04);
    v.push(0x4D);
    v.push(0x51);
    v.push(0x54);
    v.push(0x54);
    v.push(0x04);
    v.push(0x02);
    v.push(0x00);
    v.push(0x78);
    push_be16(&mut v, client_id.len());
    let mut id = slice_to_vec(client_id);
    v.append(&mut id);
    proof {
        assert(v@ =~= spec_connect_bytes(client_id@));
    }
    Ok(v)
}

/// Builds the SUBSCRIBE frame for a single topic at QoS 0, packet
/// identifier 1. Fails with `Protocol` when the frame would overflow the
/// 64-byte encode buffer.
pub fn build_subscribe_packet(topic: &[u8]) -> (r: Result<Vec<u8>, BsError>)
    ensures
        match r {
            Ok(v) => spec_subscribe_fits(topic@) && v@ == spec_subscribe_bytes(topic@),
            Err(e) => !spec_subscribe_fits(topic@) && e == BsError::Protocol,
        },
{
    if topic.len() > 57 {
        return Err(BsError::Protocol);
    }
    let mut v: Vec<u8> = Vec::new();
    v.push(0x82);
    push_remaining_len(&mut v, 5 + topic.len());
    v.push(0x00);
    v.push(0x01);
    push_be16(&mut v, topic.len());
    let mut t = slice_to_vec(topic);
    v.append(&mut t);
    v.push(0x00);
    proof {
        assert(v@ =~= spec_subscribe_bytes(topic@));
    }
    Ok(v)
}

/// Builds the QoS-0 PUBLISH frame for a topic and an opaque payload. Fails
/// with `Protocol` when the frame would overflow the 256-byte encode buffer;
/// it never silently truncates.
pub fn encode_publish(topic: &[u8], payload: &[u8]) -> (r: Result<Vec<u8>, BsError>)
    ensures
        match r {
            Ok(v) => spec_publish_fits(topic@, payload@) && v@ == spec_publish_bytes(
                topic@,
                payload@,
            ),
            Err(e) => !spec_publish_fits(topic@, payload@) && e == BsError::Protocol,
        },
{
    if topic.len() > 253 || payload.len() > 253 {
        return Err(BsError::Protocol);
    }
    let rem = 2 + topic.len() + payload.len();
    let rem_size: usize = if rem < 128 {
        1
    } else {
        2
    };
    if 1 + rem_size + rem > 256 {
        return Err(BsError::Protocol);
    }
    let mut v: Vec<u8> = Vec::new();
    v.push(0x30);
    push_remaining_len(&mut v, rem);
    push_be16(&mut v, topic.len());
    let mut t = slice_to_vec(topic);
    v.append(&mut t);
    let mut p = slice_to_vec(payload);
    v.append(&mut p);
    proof {
        assert(v@ =~= spec_publish_bytes(topic@, payload@));
    }
    Ok(v)
}

/// Classifies a first byte as an MQTT control packet or garbage.
pub fn is_mqtt_packet(first_byte: u8) -> (r: bool)
    ensures
        r == spec_is_mqtt_packet(first_byte),
{
    let packet_type = first_byte >> 4;
    1 <= packet_type && packet_type <= 14
}

/// The remaining length and the offset of the byte after it, read from a
/// frame's second byte on: `None` when the buffer is too short or the
/// encoding is not one of the minimal one- or two-byte forms this codec
/// handles.
pub open spec fn spec_parse_remaining_len(s: Seq<u8>) -> Option<(int, int)> {
    if s.len() >= 2 && s[1] < 128 {
        Some((s[1] as int, 2))
    } else if s.len() >= 3 && s[1] >= 128 && 1 <= s[2] < 128 {
        Some(((s[1] - 128) + 128 * (s[2] as int), 3))
    } else {
        None
    }
}

/// Whether a first byte opens a QoS-0 PUBLISH frame (type 3, QoS bits 0;
/// dup and retain flags are ignored).
pub open spec fn spec_publish_first_byte(b: u8) -> bool {
    b >> 4 == 3 && (b >> 1) & 3 == 0
}

/// The topic and payload of a QoS-0 PUBLISH frame at the head of `s`, bytes
/// past the frame ignored; `None` when no such frame starts the buffer.
pub open spec fn spec_parse_publish(s: Seq<u8>) -> Option<(Seq<u8>, Seq<u8>)> {
    if s.len() < 2 || !spec_publish_first_byte(s[0]) {
        None
    } else {
        match spec_parse_remaining_len(s) {
            None => None,
            Some((rem, h)) => if s.len() < h + rem || rem < 2 {
                None
            } else {
                let tl = 256 * (s[h] as int) + (s[h + 1] as int);
                if 2 + tl > rem {
                    None
                } else {
                    Some((s.subrange(h + 2, h + 2 + tl), s.subrange(h + 2 + tl, h + rem)))
                }
            },
        }
    }
}

/// The return code of a CONNACK frame at the head of `s`: type byte `0x20`,
/// remaining length 2, acknowledge flags ignored.
pub open spec fn spec_parse_connack_frame(s: Seq<u8>) -> Option<u8> {
    if s.len() >= 4 && s[0] == 0x20u8 && s[1] == 0x02u8 {
        Some(s[3])
    } else {
        None
    }
}

/// The protocol level, keep-alive and client identifier of a clean-session
/// CONNECT frame without will or credentials; `None` for any other buffer.
pub open spec fn spec_parse_connect(s: Seq<u8>) -> Option<(u8, u16, Seq<u8>)> {
    if s.len() < 2 || s[0] != 0x10u8 {
        None
    } else {
        match spec_parse_remaining_len(s) {
            None => None,
            Some((rem, h)) => if s.len() < h + rem || rem < 12 {
                None
            } else if s.subrange(h, h + 6) != seq![
                0x00u8,
                0x04u8,
                0x4Du8,
                0x51u8,
                0x54u8,
                0x54u8,
            ] || s[h + 7] != 0x02u8 {
                None
            } else {
                let keep_alive = 256 * (s[h + 8] as int) + (s[h + 9] as int);
                let il = 256 * (s[h + 10] as int) + (s[h + 11] as int);
                if rem != 12 + il {
                    None
                } else {
                    Some(
                        (
                            s[h + 6],
                            keep_alive as u16,
                            s.subrange(h + 12, h + rem),
                        ),
                    )
                }
            },
        }
    }
}

/// The topic of a single-topic QoS-0 SUBSCRIBE frame; `None` for any other
/// buffer.
pub open spec fn spec_parse_subscribe(s: Seq<u8>) -> Option<Seq<u8>> {
    if s.len() < 2 || s[0] != 0x82u8 {
        None
    } else {
        match spec_parse_remaining_len(s) {
            None => None,
            Some((rem, h)) => if s.len() < h + rem || rem < 5 {
                None
            } else {
                let tl = 256 * (s[h + 2] as int) + (s[h + 3] as int);
                if rem != 5 + tl || s[h + rem - 1] != 0x00u8 {
                    None
                } else {
                    Some(s.subrange(h + 4, h + 4 + tl))
                }
            },
        }
    }
}

/// Strict, minimal CONNACK validation: accepts exactly a 4-byte buffer
/// `[0x20, 0x02, _, 0x00]` and rejects every other buffer, of any length.
pub fn parse_connack(buf: &[u8]) -> (r: bool)
    ensures
        r == spec_connack_accepted(buf@),
{
    buf.len() == 4 && buf[0] == 0x20 && buf[1] == 0x02 && buf[3] == 0x00
}

fn read_remaining_len(s: &[u8]) -> (r: Option<(usize, usize)>)
    ensures
        match r {
            Some(v) => spec_parse_remaining_len(s@) == Some(((v.0 as int), (v.1 as int)))
                && v.0 < 16384 && 2 <= v.1 <= 3 && v.1 <= s@.len(),
            None => spec_parse_remaining_len(s@) is None,
        },
{
    if s.len() >= 2 && s[1] < 128 {
        Some((s[1] as usize, 2))
    } else if s.len() >= 3 && s[1] >= 128 && 1 <= s[2] && s[2] < 128 {
        Some(((s[1] - 128) as usize + 128 * (s[2] as usize), 3))
    } else {
        None
    }
}

/// Parses one frame from the head of a buffer (bytes past the frame are
/// ignored, as the read loop hands over at most one frame per chunk).
///
/// A first byte outside the control-packet range yields `Unknown` without
/// further parsing. A recognized type that is not a well-formed member of
/// the modeled subset — CONNECT and SUBSCRIBE as this codec emits them, any
/// CONNACK, any QoS-0 PUBLISH — fails with `Protocol`.
pub fn decode(packet: &[u8]) -> (r: Result<Packet, BsError>)
    requires
        packet@.len() > 0,
    ensures
        !spec_is_mqtt_packet(packet@[0]) ==> (r matches Ok(p) && p is Unknown),
        spec_is_mqtt_packet(packet@[0]) ==> (r matches Ok(p) ==> !(p is Unknown)),
        spec_is_mqtt_packet(packet@[0]) && packet@[0] >> 4 == 1 ==> match spec_parse_connect(
            packet@,
        ) {
            Some(c) => r matches Ok(p) && p matches Packet::Connect {
                protocol_level,
                keep_alive,
                client_id,
                clean_session,
            } && protocol_level == c.0 && keep_alive == c.1 && client_id@ == c.2 && clean_session,
            None => r == Err::<Packet, BsError>(BsError::Protocol),
        },
        spec_is_mqtt_packet(packet@[0]) && packet@[0] >> 4 == 2 ==> match spec_parse_connack_frame(
            packet@,
        ) {
            Some(code) => r matches Ok(p) && p matches Packet::Connack { return_code }
                && return_code == code,
            None => r == Err::<Packet, BsError>(BsError::Protocol),
        },
        spec_is_mqtt_packet(packet@[0]) && packet@[0] >> 4 == 3 ==> match spec_parse_publish(
            packet@,
        ) {
            Some(tp) => r matches Ok(p) && p matches Packet::Publish { topic, payload }
                && topic@ == tp.0 && payload@ == tp.1,
            None => r == Err::<Packet, BsError>(BsError::Protocol),
        },
        spec_is_mqtt_packet(packet@[0]) && packet@[0] >> 4 == 8 ==> match spec_parse_subscribe(
            packet@,
        ) {
            Some(t) => r matches Ok(p) && p matches Packet::Subscribe { topic } && topic@ == t,
            None => r == Err::<Packet, BsError>(BsError::Protocol),
        },
        spec_is_mqtt_packet(packet@[0]) && !(packet@[0] >> 4 == 1 || packet@[0] >> 4 == 2
            || packet@[0] >> 4 == 3 || packet@[0] >> 4 == 8) ==> r == Err::<Packet, BsError>(
            BsError::Protocol,
        ),
{
    let first = packet[0];
    if !is_mqtt_packet(first) {
        return Ok(Packet::Unknown);
    }
    let ptype = first >> 4;
    if ptype == 1 {
        if first != 0x10 {
            return Err(BsError::Protocol);
        }
        match read_remaining_len(packet) {
            None => Err(BsError::Protocol),
            Some((rem, h)) => {
                if packet.len() < h + rem || rem < 12 {
                    return Err(BsError::Protocol);
                }
                if packet[h] != 0x00 || packet[h + 1] != 0x04 || packet[h + 2] != 0x4D || packet[h
                    + 3] != 0x51 || packet[h + 4] != 0x54 || packet[h + 5] != 0x54 {
                    proof {
                        assert(packet@.subrange(h as int, h + 6) != seq![
                            0x00u8,
                            0x04u8,
                            0x4Du8,
                            0x51u8,
                            0x54u8,
                            0x54u8,
                        ]) by {
                            let sub = packet@.subrange(h as int, h + 6);
                            assert(sub[0] == packet@[h as int]);
                            assert(sub[1] == packet@[h + 1]);
                            assert(sub[2] == packet@[h + 2]);
                            assert(sub[3] == packet@[h + 3]);
                            assert(sub[4] == packet@[h + 4]);
                            assert(sub[5] == packet@[h + 5]);
                        }
                    }
                    return Err(BsError::Protocol);
                }
                proof {
                    assert(packet@.subrange(h as int, h + 6) =~= seq![
                        0x00u8,
                        0x04u8,
                        0x4Du8,
                        0x51u8,
                        0x54u8,
                        0x54u8,
                    ]);
                }
                if packet[h + 7] != 0x02 {
                    return Err(BsError::Protocol);
                }
                let ka_hi = packet[h + 8];
                let ka_lo = packet[h + 9];
                let il = 256 * (packet[h + 10] as usize) + (packet[h + 11] as usize);
                if rem != 12 + il {
                    return Err(BsError::Protocol);
                }
                let id_slice = slice_subrange(packet, h + 12, h + rem);
                Ok(
                    Packet::Connect {
                        protocol_level: packet[h + 6],
                        keep_alive: 256 * (ka_hi as u16) + (ka_lo as u16),
                        client_id: slice_to_vec(id_slice),
                        clean_session: true,
                    },
                )
            },
        }
    } else if ptype == 2 {
        if packet.len() >= 4 && first == 0x20 && packet[1] == 0x02 {
            Ok(Packet::Connack { return_code: packet[3] })
        } else {
            Err(BsError::Protocol)
        }
    } else if ptype == 3 {
        if (first >> 1) & 3 != 0 {
            return Err(BsError::Protocol);
        }
        match read_remaining_len(packet) {
            None => Err(BsError::Protocol),
            Some((rem, h)) => {
                if packet.len() < h + rem || rem < 2 {
                    return Err(BsError::Protocol);
                }
                let tl = 256 * (packet[h] as usize) + (packet[h + 1] as usize);
                if 2 + tl > rem {
                    return Err(BsError::Protocol);
                }
                let topic_slice = slice_subrange(packet, h + 2, h + 2 + tl);
                let payload_slice = slice_subrange(packet, h + 2 + tl, h + rem);
                Ok(
                    Packet::Publish {
                        topic: slice_to_vec(topic_slice),
                        payload: slice_to_vec(payload_slice),
                    },
                )
            },
        }
    } else if ptype == 8 {
        if first != 0x82 {
            return Err(BsError::Protocol);
        }
        match read_remaining_len(packet) {
            None => Err(BsError::Protocol),
            Some((rem, h)) => {
                if packet.len() < h + rem || rem < 5 {
                    return Err(BsError::Protocol);
                }
                let tl = 256 * (packet[h + 2] as usize) + (packet[h + 3] as usize);
                if rem != 5 + tl {
                    return Err(BsError::Protocol);
                }
                if packet[h + rem - 1] != 0x00 {
                    return Err(BsError::Protocol);
                }
                let topic_slice = slice_subrange(packet, h + 4, h + 4 + tl);
                Ok(Packet::Subscribe { topic: slice_to_vec(topic_slice) })
            },
        }
    } else {
        Err(BsError::Protocol)
    }
}

/// Law: for every one of the 256 byte values, the control-packet test is
/// equivalent to the plain range `0x10..=0xEF`.
pub proof fn lemma_mqtt_first_byte_range(b: u8)
    ensures
        spec_is_mqtt_packet(b) <==> 0x10 <= b && b <= 0xEF,
{
    assert((1 <= (b >> 4) && (b >> 4) <= 14) <==> (0x10 <= b && b <= 0xEF)) by (bit_vector);
}

/// Law: the strict handshake validator and the codec's CONNACK parse agree:
/// a four-byte buffer is accepted exactly when it parses as a CONNACK whose
/// return code is zero. Both client variants therefore accept the same
/// handshakes.
pub proof fn lemma_connack_validators_agree(s: Seq<u8>)
    requires
        s.len() == 4,
    ensures
        spec_connack_accepted(s) <==> spec_parse_connack_frame(s) == Some(0u8),
{
}

/// Law: for any topic and payload that fit the publish buffer, parsing the
/// encoded QoS-0 PUBLISH frame returns the same topic and payload.
pub proof fn lemma_publish_round_trip(topic: Seq<u8>, payload: Seq<u8>)
    requires
        spec_publish_fits(topic, payload),
    ensures
        spec_parse_publish(spec_publish_bytes(topic, payload)) == Some((topic, payload)),
{
    let s = spec_publish_bytes(topic, payload);
    let rem = 2 + topic.len() + payload.len();
    assert((0x30u8 >> 4) == 3 && ((0x30u8 >> 1) & 3) == 0) by (bit_vector);
    assert(s[0] == 0x30u8);
    if rem < 128 {
        assert(s[1] == rem as u8);
        assert(spec_parse_remaining_len(s) == Some((rem as int, 2int)));
        assert(s.len() == 2 + rem);
        assert(s[2] == (topic.len() / 256) as u8);
        assert(s[3] == (topic.len() % 256) as u8);
        assert(256 * (s[2] as int) + (s[3] as int) == topic.len());
        assert(s.subrange(4, 4 + topic.len() as int) =~= topic);
        assert(s.subrange(4 + topic.len() as int, 2 + rem as int) =~= payload);
    } else {
        assert(s[1] == ((rem % 128) + 128) as u8);
        assert(s[2] == (rem / 128) as u8);
        assert(s[1] >= 128 && 1 <= s[2] < 128);
        assert((s[1] - 128) + 128 * (s[2] as int) == rem);
        assert(spec_parse_remaining_len(s) == Some((rem as int, 3int)));
        assert(s.len() == 3 + rem);
        assert(s[3] == (topic.len() / 256) as u8);
        assert(s[4] == (topic.len() % 256) as u8);
        assert(256 * (s[3] as int) + (s[4] as int) == topic.len());
        assert(s.subrange(5, 5 + topic.len() as int) =~= topic);
        assert(s.subrange(5 + topic.len() as int, 3 + rem as int) =~= payload);
    }
}

/// Law: parsing an encoded CONNECT frame returns protocol level 4, the
/// 120-second keep-alive, and the same client identifier.
pub proof fn lemma_connect_round_trip(id: Seq<u8>)
    requires
        spec_connect_fits(id),
    ensures
        spec_parse_connect(spec_connect_bytes(id)) == Some((0x04u8, 120u16, id)),
{
    let s = spec_connect_bytes(id);
    let rem = 12 + id.len();
    assert(s[0] == 0x10u8);
    assert(s[1] == rem as u8);
    assert(spec_parse_remaining_len(s) == Some((rem as int, 2int)));
    assert(s.len() == 2 + rem);
    assert(s.subrange(2, 8) =~= seq![0x00u8, 0x04u8, 0x4Du8, 0x51u8, 0x54u8, 0x54u8]);
    assert(s[8] == 0x04u8 && s[9] == 0x02u8);
    assert(s[10] == 0x00u8 && s[11] == 0x78u8);
    assert(s[12] == (id.len() / 256) as u8 && s[13] == (id.len() % 256) as u8);
    assert(256 * (s[12] as int) + (s[13] as int) == id.len());
    assert(s.subrange(14, 2 + rem as int) =~= id);
}

/// Law: parsing an encoded single-topic SUBSCRIBE frame returns the same
/// topic.
pub proof fn lemma_subscribe_round_trip(topic: Seq<u8>)
    requires
        spec_subscribe_fits(topic),
    ensures
        spec_parse_subscribe(spec_subscribe_bytes(topic)) == Some(topic),
{
    let s = spec_subscribe_bytes(topic);
    let rem = 5 + topic.len();
    assert(s[0] == 0x82u8);
    assert(s[1] == rem as u8);
    assert(spec_parse_remaining_len(s) == Some((rem as int, 2int)));
    assert(s.len() == 2 + rem);
    assert(s[4] == (topic.len() / 256) as u8 && s[5] == (topic.len() % 256) as u8);
    assert(256 * (s[4] as int) + (s[5] as int) == topic.len());
    assert(s[2 + rem as int - 1] == 0x00u8);
    assert(s.subrange(6, 6 + topic.len() as int) =~= topic);
}

} // verus!
