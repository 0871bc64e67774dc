//! Tests of the packet codec: round trips, malformed-input rejection, and
//! byte-level parity with the serde/bincode encoding the device firmware
//! speaks (checked by serializing equivalent tuples, which bincode lays out
//! exactly like the tagged packet frames).

use pulse_link::codec::{
    decode, decode_legacy, encode_command, encode_packet, handshake_frame, DecodeError, Packet,
    SensorStatus, COMMAND_HANDSHAKE, COMMAND_SET_AMPLITUDE, LEGACY_FRAME_LEN,
};

fn sample_status() -> SensorStatus {
    SensorStatus {
        version_major: 1,
        version_minor: 2,
        version_patch: 3,
        connected: true,
        display_ok: true,
        haptic_ok: true,
        heart_ok: false,
        led_amplitude: 5,
    }
}

#[test]
fn round_trip_status() {
    let p = Packet::Status(sample_status());
    let bytes = encode_packet(&p);
    assert_eq!(decode(&bytes), Ok(p));
}

#[test]
fn round_trip_raw_sample() {
    let p = Packet::RawSample(0.25f32.to_bits());
    let bytes = encode_packet(&p);
    assert_eq!(decode(&bytes), Ok(p));
}

#[test]
fn round_trip_filtered_sample() {
    let p = Packet::FilteredSample((-3.5f32).to_bits());
    let bytes = encode_packet(&p);
    assert_eq!(decode(&bytes), Ok(p));
}

#[test]
fn round_trip_bpm() {
    let p = Packet::BeatsPerMinute(72.5f32.to_bits());
    let bytes = encode_packet(&p);
    assert_eq!(decode(&bytes), Ok(p));
}

#[test]
fn decode_matches_bincode_status() {
    // bincode lays a newtype enum variant out as the u32 variant index
    // followed by the fields, which is byte-for-byte what an equivalent
    // tuple serializes to.
    let bytes =
        bincode::serialize(&(0u32, [1u8, 2u8, 3u8], true, true, true, false, 5u8)).unwrap();
    assert_eq!(decode(&bytes), Ok(Packet::Status(sample_status())));
}

#[test]
fn decode_matches_bincode_raw_sample() {
    let bytes = bincode::serialize(&(1u32, 0.25f32)).unwrap();
    assert_eq!(decode(&bytes), Ok(Packet::RawSample(0.25f32.to_bits())));
}

#[test]
fn decode_matches_bincode_bpm() {
    let bytes = bincode::serialize(&(2u32, 72.5f32)).unwrap();
    assert_eq!(decode(&bytes), Ok(Packet::BeatsPerMinute(72.5f32.to_bits())));
}

#[test]
fn decode_matches_bincode_filtered_sample() {
    let bytes = bincode::serialize(&(3u32, -3.5f32)).unwrap();
    assert_eq!(decode(&bytes), Ok(Packet::FilteredSample((-3.5f32).to_bits())));
}

#[test]
fn encode_matches_bincode_layout() {
    let bytes = encode_packet(&Packet::Status(sample_status()));
    let tuple: (u32, [u8; 3], bool, bool, bool, bool, u8) =
        bincode::deserialize(&bytes).unwrap();
    assert_eq!(tuple, (0u32, [1u8, 2u8, 3u8], true, true, true, false, 5u8));

    let bytes = encode_packet(&Packet::BeatsPerMinute(72.5f32.to_bits()));
    let tuple: (u32, f32) = bincode::deserialize(&bytes).unwrap();
    assert_eq!(tuple, (2u32, 72.5f32));
}

#[test]
fn decode_rejects_short_buffers() {
    for n in 0..8usize {
        let buf = vec![1u8; n];
        assert_eq!(decode(&buf), Err(DecodeError::Malformed));
    }
    // A status frame needs 12 bytes; 8..11 with the status tag fail too.
    for n in 8..12usize {
        let mut buf = vec![0u8; n];
        buf[0] = 0;
        assert_eq!(decode(&buf), Err(DecodeError::Malformed));
    }
}

#[test]
fn decode_rejects_unknown_tag() {
    let buf = vec![4u8, 0, 0, 0, 0, 0, 128, 66];
    assert_eq!(decode(&buf), Err(DecodeError::Malformed));
    let buf = vec![255u8, 255, 255, 255, 0, 0, 128, 66];
    assert_eq!(decode(&buf), Err(DecodeError::Malformed));
}

#[test]
fn decode_rejects_bad_flag_byte() {
    // Byte 7 is the connectivity flag; 2 is not a boolean.
    let buf = vec![0u8, 0, 0, 0, 1, 2, 3, 2, 1, 1, 0, 5];
    assert_eq!(decode(&buf), Err(DecodeError::Malformed));
}

#[test]
fn decode_rejects_zero_bpm() {
    // A zero beats-per-minute sample would make the derived inter-beat
    // interval a division by zero: rejected as malformed, positive and
    // negative zero alike.
    let pos = bincode::serialize(&(2u32, 0.0f32)).unwrap();
    assert_eq!(decode(&pos), Err(DecodeError::Malformed));
    let neg = bincode::serialize(&(2u32, -0.0f32)).unwrap();
    assert_eq!(decode(&neg), Err(DecodeError::Malformed));
}

#[test]
fn decode_ignores_trailing_bytes() {
    // bincode's deserializer allows trailing bytes; the decoder keeps that.
    let mut bytes = bincode::serialize(&(1u32, 0.25f32)).unwrap();
    bytes.extend_from_slice(&[9u8, 9, 9]);
    assert_eq!(decode(&bytes), Ok(Packet::RawSample(0.25f32.to_bits())));
}

#[test]
fn legacy_decode_reads_big_endian_samples() {
    let vals: Vec<u16> = (0..102u16).map(|i| 600 + i).collect();
    let mut buf: Vec<u8> = Vec::new();
    for v in &vals {
        buf.extend_from_slice(&v.to_be_bytes());
    }
    assert_eq!(buf.len(), LEGACY_FRAME_LEN);
    assert_eq!(decode_legacy(&buf), Ok(vals));
}

#[test]
fn legacy_decode_rejects_wrong_length() {
    assert_eq!(decode_legacy(&vec![0u8; 203]), Err(DecodeError::Malformed));
    assert_eq!(decode_legacy(&vec![0u8; 205]), Err(DecodeError::Malformed));
    assert_eq!(decode_legacy(&Vec::new()), Err(DecodeError::Malformed));
}

#[test]
fn command_frame_is_id_then_payload() {
    let payload = vec![10u8, 20u8, 30u8];
    assert_eq!(encode_command(7, &payload), vec![7u8, 10, 20, 30]);
    assert_eq!(encode_command(COMMAND_SET_AMPLITUDE, &vec![200u8]), vec![2u8, 200]);
    assert_eq!(encode_command(9, &Vec::new()), vec![9u8]);
}

#[test]
fn handshake_frame_is_tagged_big_endian_port() {
    assert_eq!(handshake_frame(0xABCD), vec![COMMAND_HANDSHAKE, 0xAB, 0xCD]);
    assert_eq!(handshake_frame(80), vec![3u8, 0, 80]);
    assert_eq!(handshake_frame(0), vec![3u8, 0, 0]);
    assert_eq!(handshake_frame(65535), vec![3u8, 255, 255]);
}
