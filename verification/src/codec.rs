//! Packet codec: the fixed binary wire formats exchanged with the sensor.
//!
//! The data channel carries one encoded [`Packet`] per datagram in a compact
//! tagged layout: a 32-bit little-endian variant tag followed by the
//! variant's fields (fixed-width integers, one byte per boolean, and each
//! floating-point sample as the four little-endian bytes of its IEEE 754
//! bit pattern, held here as a `u32`).  An earlier protocol generation
//! instead sent a fixed-length fanout datagram of 102 big-endian 16-bit
//! samples where the position encodes the channel.
//!
//! The control channel carries frames of the form `[command_id] ++ payload`;
//! the first frame of a session is the handshake `[0x03, port_hi, port_lo]`.

use vstd::prelude::*;

verus! {

/// Decoded device self-report: firmware version, connectivity, and health
/// flags for each onboard subsystem.
#[derive(Clone, Copy, Debug, PartialEq, Eq, Structural)]
pub struct SensorStatus {
    pub version_major: u8,
    pub version_minor: u8,
    pub version_patch: u8,
    pub connected: bool,
    pub display_ok: bool,
    pub haptic_ok: bool,
    pub heart_ok: bool,
    pub led_amplitude: u8,
}

/// Everything the device may send on the data channel.  Each sample value is
/// the bit pattern of an IEEE 754 single-precision number; this crate never
/// interprets it arithmetically.
#[derive(Clone, Copy, Debug, PartialEq, Eq, Structural)]
pub enum Packet {
    Status(SensorStatus),
    RawSample(u32),
    BeatsPerMinute(u32),
    FilteredSample(u32),
}

/// Why a buffer failed to decode.  A malformed datagram is dropped by the
/// caller, never fatal.
#[derive(Clone, Copy, Debug, PartialEq, Eq, Structural)]
pub enum DecodeError {
    Malformed,
}

/// Wire tag of `Packet::Status`.
pub const TAG_STATUS: u32 = 0;
/// Wire tag of `Packet::RawSample`.
pub const TAG_RAW_SAMPLE: u32 = 1;
/// Wire tag of `Packet::BeatsPerMinute`.
pub const TAG_BPM: u32 = 2;
/// Wire tag of `Packet::FilteredSample`.
pub const TAG_FILTERED_SAMPLE: u32 = 3;

/// Shortest well-formed tagged frame: 4 tag bytes plus a 4-byte sample.
pub const MIN_FRAME_LEN: usize = 8;
/// Length of a tagged status frame: 4 tag bytes plus 8 field bytes.
pub const STATUS_FRAME_LEN: usize = 12;

/// Number of 16-bit samples in a legacy fanout datagram.
pub const LEGACY_SAMPLE_COUNT: usize = 102;
/// Exact length of a legacy fanout datagram.
pub const LEGACY_FRAME_LEN: usize = 204;

/// Command identifier for "set output amplitude" (one-byte payload).
pub const COMMAND_SET_AMPLITUDE: u8 = 2;
/// Command identifier of the handshake frame that announces the local
/// data-channel port.
pub const COMMAND_HANDSHAKE: u8 = 3;

/// The 32-bit value spelled by four little-endian bytes.
pub open spec fn spec_le32(b0: u8, b1: u8, b2: u8, b3: u8) -> u32 {
    (b0 + b1 * 0x100 + b2 * 0x10000 + b3 * 0x1000000) as u32
}

/// The 16-bit value spelled by two big-endian bytes.
pub open spec fn spec_be16(hi: u8, lo: u8) -> u16 {
    (hi * 0x100 + lo) as u16
}

/// Whether a bit pattern denotes an IEEE 754 single-precision zero
/// (positive or negative).
pub open spec fn spec_is_zero_f32(bits: u32) -> bool {
    bits == 0 || bits == 0x8000_0000u32
}

/// How one byte of the wire format reads as a boolean: `0` is false, `1` is
/// true, anything else is malformed.
pub open spec fn spec_bool_byte(b: u8) -> Option<bool> {
    if b == 0 {
        Some(false)
    } else if b == 1 {
        Some(true)
    } else {
        None
    }
}

/// A boolean as the wire format spells it.
pub open spec fn spec_byte_of_bool(b: bool) -> u8 {
    if b { 1 } else { 0 }
}

/// The status fields of a tagged status frame, read from the 8 bytes that
/// follow the tag.  `None` when a flag byte is not a valid boolean.
pub open spec fn spec_decode_status(b: Seq<u8>) -> Option<Packet>
    recommends
        b.len() >= STATUS_FRAME_LEN,
{
    match (
        spec_bool_byte(b[7]),
        spec_bool_byte(b[8]),
        spec_bool_byte(b[9]),
        spec_bool_byte(b[10]),
    ) {
        (Some(connected), Some(display_ok), Some(haptic_ok), Some(heart_ok)) => Some(
            Packet::Status(
                SensorStatus {
                    version_major: b[4],
                    version_minor: b[5],
                    version_patch: b[6],
                    connected,
                    display_ok,
                    haptic_ok,
                    heart_ok,
                    led_amplitude: b[11],
                },
            ),
        ),
        _ => None,
    }
}

/// What a buffer decodes to under the tagged framing, or `None` when it is
/// malformed: too short for its tag, an unrecognized tag, a flag byte that
/// is not a boolean, or a beats-per-minute sample of zero (which the derived
/// inter-beat interval could not be computed from).  Bytes beyond the frame
/// are ignored.
pub open spec fn spec_decode(b: Seq<u8>) -> Option<Packet> {
    if b.len() < MIN_FRAME_LEN {
        None
    } else {
        let tag = spec_le32(b[0], b[1], b[2], b[3]);
        if tag == TAG_STATUS {
            if b.len() < STATUS_FRAME_LEN {
                None
            } else {
                spec_decode_status(b)
            }
        } else if tag == TAG_RAW_SAMPLE {
            Some(Packet::RawSample(spec_le32(b[4], b[5], b[6], b[7])))
        } else if tag == TAG_BPM {
            let bits = spec_le32(b[4], b[5], b[6], b[7]);
            if spec_is_zero_f32(bits) {
                None
            } else {
                Some(Packet::BeatsPerMinute(bits))
            }
        } else if tag == TAG_FILTERED_SAMPLE {
            Some(Packet::FilteredSample(spec_le32(b[4], b[5], b[6], b[7])))
        } else {
            None
        }
    }
}

/// What a buffer decodes to under the legacy fanout framing: exactly
/// [`LEGACY_SAMPLE_COUNT`] big-endian 16-bit samples, or `None` at any other
/// length.
pub open spec fn spec_decode_legacy(b: Seq<u8>) -> Option<Seq<u16>> {
    if b.len() == LEGACY_FRAME_LEN {
        Some(Seq::new(LEGACY_SAMPLE_COUNT as nat, |i: int| spec_be16(b[2 * i], b[2 * i + 1])))
    } else {
        None
    }
}

/// A packet is well formed when every frame that decodes to it exists: the
/// one constraint is that a beats-per-minute sample is not zero.
pub open spec fn spec_wf_packet(p: Packet) -> bool {
    match p {
        Packet::BeatsPerMinute(bits) => !spec_is_zero_f32(bits),
        _ => true,
    }
}

/// The tagged encoding of a packet.
pub open spec fn spec_encode(p: Packet) -> Seq<u8> {
    match p {
        Packet::Status(s) => spec_le32_bytes(TAG_STATUS) + seq![
            s.version_major,
            s.version_minor,
            s.version_patch,
            spec_byte_of_bool(s.connected),
            spec_byte_of_bool(s.display_ok),
            spec_byte_of_bool(s.haptic_ok),
            spec_byte_of_bool(s.heart_ok),
            s.led_amplitude,
        ],
        Packet::RawSample(bits) => spec_le32_bytes(TAG_RAW_SAMPLE) + spec_le32_bytes(bits),
        Packet::BeatsPerMinute(bits) => spec_le32_bytes(TAG_BPM) + spec_le32_bytes(bits),
        Packet::FilteredSample(bits) => spec_le32_bytes(TAG_FILTERED_SAMPLE) + spec_le32_bytes(
            bits,
        ),
    }
}

/// The four little-endian bytes of a 32-bit value.
pub open spec fn spec_le32_bytes(v: u32) -> Seq<u8> {
    seq![
        (v % 0x100) as u8,
        ((v / 0x100) % 0x100) as u8,
        ((v / 0x10000) % 0x100) as u8,
        ((v / 0x1000000) % 0x100) as u8,
    ]
}

/// Reassembling the little-endian bytes of a value gives the value back.
pub proof fn lemma_le32_bytes_reassemble(v: u32)
    ensures
        spec_le32(
            (v % 0x100) as u8,
            ((v / 0x100) % 0x100) as u8,
            ((v / 0x10000) % 0x100) as u8,
            ((v / 0x1000000) % 0x100) as u8,
        ) == v,
{
    assert(spec_le32(
        (v % 0x100) as u8,
        ((v / 0x100) % 0x100) as u8,
        ((v / 0x10000) % 0x100) as u8,
        ((v / 0x1000000) % 0x100) as u8,
    ) == v) by (bit_vector);
}

/// The 32-bit value spelled by four little-endian bytes.
pub fn le32(b0: u8, b1: u8, b2: u8, b3: u8) -> (r: u32)
    ensures
        r == spec_le32(b0, b1, b2, b3),
{
    (b0 as u32) + (b1 as u32) * 0x100 + (b2 as u32) * 0x10000 + (b3 as u32) * 0x1000000
}

/// The 16-bit value spelled by two big-endian bytes.
pub fn be16(hi: u8, lo: u8) -> (r: u16)
    ensures
        r == spec_be16(hi, lo),
{
    (hi as u16) * 0x100 + (lo as u16)
}

/// How one byte of the wire format reads as a boolean.
pub fn bool_byte(b: u8) -> (r: Option<bool>)
    ensures
        r == spec_bool_byte(b),
{
    if b == 0 {
        Some(false)
    } else if b == 1 {
        Some(true)
    } else {
        None
    }
}

/// Decodes one data-channel datagram under the tagged framing.
///
/// Succeeds exactly on the buffers that [`spec_decode`] accepts and returns
/// the packet it names; every other buffer — shorter than the minimum frame,
/// an unrecognized tag, a malformed flag byte, a zero beats-per-minute
/// sample — yields `DecodeError::Malformed`.
pub fn decode(buf: &Vec<u8>) -> (r: Result<Packet, DecodeError>)
    ensures
        r == (match spec_decode(buf@) {
            Some(p) => Ok::<Packet, DecodeError>(p),
            None => Err::<Packet, DecodeError>(DecodeError::Malformed),
        }),
{
    if buf.len() < MIN_FRAME_LEN {
        return Err(DecodeError::Malformed);
    }
    let tag = le32(buf[0], buf[1], buf[2], buf[3]);
    if tag == TAG_STATUS {
        if buf.len() < STATUS_FRAME_LEN {
            return Err(DecodeError::Malformed);
        }
        let connected = match bool_byte(buf[7]) {
            Some(b) => b,
            None => {
                return Err(DecodeError::Malformed);
            },
        };
        let display_ok = match bool_byte(buf[8]) {
            Some(b) => b,
            None => {
                return Err(DecodeError::Malformed);
            },
        };
        let haptic_ok = match bool_byte(buf[9]) {
            Some(b) => b,
            None => {
                return Err(DecodeError::Malformed);
            },
        };
        let heart_ok = match bool_byte(buf[10]) {
            Some(b) => b,
            None => {
                return Err(DecodeError::Malformed);
            },
        };
        Ok(
            Packet::Status(
                SensorStatus {
                    version_major: buf[4],
                    version_minor: buf[5],
                    version_patch: buf[6],
                    connected,
                    display_ok,
                    haptic_ok,
                    heart_ok,
                    led_amplitude: buf[11],
                },
            ),
        )
    } else if tag == TAG_RAW_SAMPLE {
        Ok(Packet::RawSample(le32(buf[4], buf[5], buf[6], buf[7])))
    } else if tag == TAG_BPM {
        let bits = le32(buf[4], buf[5], buf[6], buf[7]);
        if bits == 0 || bits == 0x8000_0000u32 {
            Err(DecodeError::Malformed)
        } else {
            Ok(Packet::BeatsPerMinute(bits))
        }
    } else if tag == TAG_FILTERED_SAMPLE {
        Ok(Packet::FilteredSample(le32(buf[4], buf[5], buf[6], buf[7])))
    } else {
        Err(DecodeError::Malformed)
    }
}

/// Decodes one data-channel datagram under the legacy fanout framing:
/// exactly [`LEGACY_SAMPLE_COUNT`] big-endian 16-bit samples, anything else
/// is malformed.
pub fn decode_legacy(buf: &Vec<u8>) -> (r: Result<Vec<u16>, DecodeError>)
    ensures
        (match spec_decode_legacy(buf@) {
            Some(vals) => r is Ok && r->Ok_0@ == vals,
            None => r == Err::<Vec<u16>, DecodeError>(DecodeError::Malformed),
        }),
{
    if buf.len() != LEGACY_FRAME_LEN {
        return Err(DecodeError::Malformed);
    }
    let mut vals: Vec<u16> = Vec::new();
    let mut i: usize = 0;
    while i < LEGACY_SAMPLE_COUNT
        invariant
            i <= LEGACY_SAMPLE_COUNT,
            buf@.len() == LEGACY_FRAME_LEN,
            vals@.len() == i,
            forall|j: int|
                0 <= j < i ==> vals@[j] == spec_be16(buf@[2 * j], buf@[2 * j + 1]),
        decreases LEGACY_SAMPLE_COUNT - i,
    {
        vals.push(be16(buf[2 * i], buf[2 * i + 1]));
        i += 1;
    }
    proof {
        assert(vals@ =~= spec_decode_legacy(buf@)->0);
    }
    Ok(vals)
}

/// Encodes a packet under the tagged framing.
///
/// For every well-formed packet the result decodes back to the packet
/// itself: the round trip is part of this contract.
pub fn encode_packet(p: &Packet) -> (r: Vec<u8>)
    ensures
        r@ == spec_encode(*p),
        spec_wf_packet(*p) ==> spec_decode(r@) == Some(*p),
{
    let mut r: Vec<u8> = Vec::new();
    match p {
        Packet::Status(s) => {
            push_le32_bytes(&mut r, TAG_STATUS);
            r.push(s.version_major);
            r.push(s.version_minor);
            r.push(s.version_patch);
            r.push(if s.connected { 1 } else { 0 });
            r.push(if s.display_ok { 1 } else { 0 });
            r.push(if s.haptic_ok { 1 } else { 0 });
            r.push(if s.heart_ok { 1 } else { 0 });
            r.push(s.led_amplitude);
        },
        Packet::RawSample(bits) => {
            push_le32_bytes(&mut r, TAG_RAW_SAMPLE);
            push_le32_bytes(&mut r, *bits);
        },
        Packet::BeatsPerMinute(bits) => {
            push_le32_bytes(&mut r, TAG_BPM);
            push_le32_bytes(&mut r, *bits);
        },
        Packet::FilteredSample(bits) => {
            push_le32_bytes(&mut r, TAG_FILTERED_SAMPLE);
            push_le32_bytes(&mut r, *bits);
        },
    }
    proof {
        assert(r@ =~= spec_encode(*p));
        if spec_wf_packet(*p) {
            lemma_encode_decode_round_trip(*p);
        }
    }
    r
}

/// Appends the four little-endian bytes of a 32-bit value.
fn push_le32_bytes(r: &mut Vec<u8>, v: u32)
    ensures
        final(r)@ == old(r)@ + spec_le32_bytes(v),
{
    r.push((v % 0x100) as u8);
    r.push(((v / 0x100) % 0x100) as u8);
    r.push(((v / 0x10000) % 0x100) as u8);
    r.push(((v / 0x1000000) % 0x100) as u8);
    proof {
        assert(r@ =~= old(r)@ + spec_le32_bytes(v));
    }
}

/// Round trip: every well-formed packet decodes from its own encoding.
pub proof fn lemma_encode_decode_round_trip(p: Packet)
    requires
        spec_wf_packet(p),
    ensures
        spec_decode(spec_encode(p)) == Some(p),
{
    let b = spec_encode(p);
    match p {
        Packet::Status(s) => {
            assert(b.len() == STATUS_FRAME_LEN);
            lemma_le32_bytes_reassemble(TAG_STATUS);
            assert(spec_le32(b[0], b[1], b[2], b[3]) == TAG_STATUS);
            assert(spec_decode_status(b) == Some(p));
        },
        Packet::RawSample(bits) => {
            lemma_le32_bytes_reassemble(TAG_RAW_SAMPLE);
            lemma_le32_bytes_reassemble(bits);
            assert(spec_le32(b[0], b[1], b[2], b[3]) == TAG_RAW_SAMPLE);
            assert(spec_le32(b[4], b[5], b[6], b[7]) == bits);
        },
        Packet::BeatsPerMinute(bits) => {
            lemma_le32_bytes_reassemble(TAG_BPM);
            lemma_le32_bytes_reassemble(bits);
            assert(spec_le32(b[0], b[1], b[2], b[3]) == TAG_BPM);
            assert(spec_le32(b[4], b[5], b[6], b[7]) == bits);
        },
        Packet::FilteredSample(bits) => {
            lemma_le32_bytes_reassemble(TAG_FILTERED_SAMPLE);
            lemma_le32_bytes_reassemble(bits);
            assert(spec_le32(b[0], b[1], b[2], b[3]) == TAG_FILTERED_SAMPLE);
            assert(spec_le32(b[4], b[5], b[6], b[7]) == bits);
        },
    }
}

/// Any buffer shorter than the minimum frame, and any buffer whose tag is
/// unrecognized, fails to decode.
pub proof fn lemma_decode_rejects_malformed(b: Seq<u8>)
    ensures
        b.len() < MIN_FRAME_LEN ==> spec_decode(b) is None,
        b.len() >= MIN_FRAME_LEN && spec_le32(b[0], b[1], b[2], b[3]) > TAG_FILTERED_SAMPLE
            ==> spec_decode(b) is None,
{
}

/// Encodes one control-channel command frame: the command identifier
/// followed by the payload, which is opaque to the codec.
pub fn encode_command(command_id: u8, payload: &Vec<u8>) -> (r: Vec<u8>)
    ensures
        r@ == seq![command_id] + payload@,
{
    let mut r: Vec<u8> = Vec::new();
    r.push(command_id);
    let mut i: usize = 0;
    while i < payload.len()
        invariant
            i <= payload.len(),
            r@ == seq![command_id] + payload@.take(i as int),
        decreases payload.len() - i,
    {
        proof {
            assert((seq![command_id] + payload@.take(i as int)).push(payload@[i as int]) =~= seq![
                command_id,
            ] + payload@.take(i as int + 1));
        }
        r.push(payload[i]);
        i += 1;
    }
    proof {
        assert(payload@.take(payload@.len() as int) =~= payload@);
    }
    r
}

/// Encodes the handshake frame that announces the local data-channel port:
/// the handshake tag followed by the port in big-endian order.
pub fn handshake_frame(port: u16) -> (r: Vec<u8>)
    ensures
        r@ == seq![COMMAND_HANDSHAKE, (port / 0x100) as u8, (port % 0x100) as u8],
{
    let mut r: Vec<u8> = Vec::new();
    r.push(COMMAND_HANDSHAKE);
    r.push((port / 0x100) as u8);
    r.push((port % 0x100) as u8);
    proof {
        assert(r@ =~= seq![COMMAND_HANDSHAKE, (port / 0x100) as u8, (port % 0x100) as u8]);
    }
    r
}

} // verus!
