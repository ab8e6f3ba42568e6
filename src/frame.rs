//! The fixed 64-byte command frame: an eight-byte header, the payload, and
//! zero padding.

use vstd::prelude::*;
use crate::protocol::{AP2Target, FrameError, target_code};

verus! {

pub const FRAME_LEN: usize = 64;

pub const HEADER_LEN: usize = 8;

pub const MAX_PAYLOAD: usize = 56;

pub const START_MARKER: u8 = 0x7b;

pub const END_MARKER: u8 = 0x7d;

pub const PROTOCOL_VERSION: u8 = 0x10;

/// The routing byte: destination in the high nibble, the USB host as source
/// in the low one.
pub open spec fn routing_byte(t: AP2Target) -> u8 {
    (target_code(t) * 16 + target_code(AP2Target::UsbHost)) as u8
}

/// The header of a frame to `t` whose payload has `len` bytes.
pub open spec fn frame_header(t: AP2Target, len: nat) -> Seq<u8> {
    seq![START_MARKER, PROTOCOL_VERSION, routing_byte(t), 0x10u8, len as u8, 0u8, 0u8, END_MARKER]
}

pub open spec fn zeros(n: nat) -> Seq<u8> {
    Seq::new(n, |_i: int| 0u8)
}

/// The padded frame that carries `payload` to `t`.
pub open spec fn frame_of(t: AP2Target, payload: Seq<u8>) -> Seq<u8> {
    frame_header(t, payload.len()) + payload + zeros((MAX_PAYLOAD - payload.len()) as nat)
}

/// What the report that carries a frame holds: a zero report id, then the frame.
pub open spec fn report_of(frame: Seq<u8>) -> Seq<u8> {
    seq![0u8] + frame
}

/// A frame is readable when its markers stand at their offsets, it is no
/// longer than a frame, and it holds the payload length that it announces.
pub open spec fn frame_ok(b: Seq<u8>) -> bool {
    &&& HEADER_LEN <= b.len() <= FRAME_LEN
    &&& b[0] == START_MARKER
    &&& b[7] == END_MARKER
    &&& HEADER_LEN + b[4] <= b.len()
}

pub open spec fn frame_target(b: Seq<u8>) -> u8 {
    (b[2] / 16) as u8
}

pub open spec fn frame_source(b: Seq<u8>) -> u8 {
    (b[2] % 16) as u8
}

pub open spec fn frame_payload(b: Seq<u8>) -> Seq<u8> {
    b.subrange(HEADER_LEN as int, HEADER_LEN + b[4])
}

/// A frame as read back: the two routing nibbles and the payload.
#[derive(Debug, Clone, PartialEq, Eq)]
pub struct ParsedFrame {
    pub target: u8,
    pub source: u8,
    pub payload: Vec<u8>,
}

fn routing(target: AP2Target) -> (r: u8)
    ensures
        r == routing_byte(target),
{
    let t = target.code();
    let s = AP2Target::UsbHost.code();
    assert((t << 4u8) | s == ((t * 16 + s) as u8)) by (bit_vector)
        requires
            t < 16,
            s == 1,
    ;
    (t << 4u8) | s
}

/// Appends `data` to `buffer`.
pub(crate) fn push_all(buffer: &mut Vec<u8>, data: &[u8])
    ensures
        final(buffer)@ == old(buffer)@ + data@,
{
    let mut i: usize = 0;
    while i < data.len()
        invariant
            i <= data@.len(),
            buffer@ == old(buffer)@ + data@.subrange(0, i as int),
        decreases data@.len() - i,
    {
        buffer.push(data[i]);
        assert(data@.subrange(0, i + 1) == data@.subrange(0, i as int).push(data@[i as int]));
        i = i + 1;
    }
    assert(data@.subrange(0, i as int) == data@);
}

/// Builds the 64-byte frame that carries `payload` to `target`.
pub fn encode_frame(target: AP2Target, payload: &[u8]) -> (r: Result<Vec<u8>, FrameError>)
    ensures
        payload@.len() > MAX_PAYLOAD <==> r is Err,
        match r {
            Ok(f) => f@ == frame_of(target, payload@) && f@.len() == FRAME_LEN,
            Err(e) => e == FrameError::PayloadTooLarge,
        },
{
    if payload.len() > MAX_PAYLOAD {
        return Err(FrameError::PayloadTooLarge);
    }
    let mut buffer: Vec<u8> = Vec::with_capacity(FRAME_LEN);
    buffer.push(START_MARKER);
    buffer.push(PROTOCOL_VERSION);
    buffer.push(routing(target));
    buffer.push(0x10);
    buffer.push(payload.len() as u8);
    buffer.push(0);
    buffer.push(0);
    buffer.push(END_MARKER);
    assert(buffer@ == frame_header(target, payload@.len()));
    let mut i: usize = 0;
    while i < payload.len()
        invariant
            i <= payload@.len() <= MAX_PAYLOAD,
            buffer@ == frame_header(target, payload@.len()) + payload@.subrange(0, i as int),
        decreases payload@.len() - i,
    {
        buffer.push(payload[i]);
        assert(payload@.subrange(0, i + 1) == payload@.subrange(0, i as int).push(payload@[i as int]));
        i = i + 1;
    }
    assert(payload@.subrange(0, i as int) == payload@);
    while buffer.len() < FRAME_LEN
        invariant
            HEADER_LEN + payload@.len() <= buffer@.len() <= FRAME_LEN,
            buffer@ == frame_header(target, payload@.len()) + payload@ + zeros(
                (buffer@.len() - HEADER_LEN - payload@.len()) as nat,
            ),
        decreases FRAME_LEN - buffer@.len(),
    {
        let ghost n = (buffer@.len() - HEADER_LEN - payload@.len()) as nat;
        buffer.push(0);
        assert(zeros(n + 1) == zeros(n).push(0u8));
    }
    Ok(buffer)
}

/// Reads a frame back: checks its markers and announced length, and
/// returns its routing nibbles and payload.
pub fn decode_frame(bytes: &[u8]) -> (r: Result<ParsedFrame, FrameError>)
    ensures
        frame_ok(bytes@) <==> r is Ok,
        match r {
            Ok(p) => p.target == frame_target(bytes@) && p.source == frame_source(bytes@)
                && p.payload@ == frame_payload(bytes@),
            Err(e) => e == FrameError::MalformedFrame,
        },
{
    if bytes.len() < HEADER_LEN || bytes.len() > FRAME_LEN {
        return Err(FrameError::MalformedFrame);
    }
    if bytes[0] != START_MARKER || bytes[7] != END_MARKER {
        return Err(FrameError::MalformedFrame);
    }
    let len = bytes[4] as usize;
    if HEADER_LEN + len > bytes.len() {
        return Err(FrameError::MalformedFrame);
    }
    let routing = bytes[2];
    let target = routing >> 4u8;
    let source = routing & 0x0f;
    assert(routing >> 4u8 == routing / 16 && routing & 0x0f == routing % 16) by (bit_vector);
    let mut payload: Vec<u8> = Vec::with_capacity(len);
    let mut i: usize = 0;
    while i < len
        invariant
            HEADER_LEN + len <= bytes@.len() <= FRAME_LEN,
            i <= len,
            payload@ == bytes@.subrange(HEADER_LEN as int, HEADER_LEN + i),
        decreases len - i,
    {
        payload.push(bytes[HEADER_LEN + i]);
        assert(bytes@.subrange(HEADER_LEN as int, HEADER_LEN + i + 1)
            == bytes@.subrange(HEADER_LEN as int, HEADER_LEN + i).push(bytes@[HEADER_LEN + i]));
        i = i + 1;
    }
    Ok(ParsedFrame { target, source, payload })
}

/// Builds the HID report that sends `payload` to `target`: a zero report id
/// followed by the padded frame.
pub fn write_to_target(target: AP2Target, payload: &[u8]) -> (r: Result<Vec<u8>, FrameError>)
    ensures
        payload@.len() > MAX_PAYLOAD <==> r is Err,
        match r {
            Ok(b) => b@ == report_of(frame_of(target, payload@)) && b@.len() == FRAME_LEN + 1,
            Err(e) => e == FrameError::PayloadTooLarge,
        },
{
    match encode_frame(target, payload) {
        Ok(frame) => {
            let mut report: Vec<u8> = Vec::with_capacity(FRAME_LEN + 1);
            report.push(0);
            let mut i: usize = 0;
            while i < frame.len()
                invariant
                    frame@.len() == FRAME_LEN,
                    i <= frame@.len(),
                    report@ == seq![0u8] + frame@.subrange(0, i as int),
                decreases frame@.len() - i,
            {
                report.push(frame[i]);
                assert(frame@.subrange(0, i + 1) == frame@.subrange(0, i as int).push(frame@[i as int]));
                i = i + 1;
            }
            assert(frame@.subrange(0, i as int) == frame@);
            Ok(report)
        },
        Err(e) => Err(e),
    }
}

/// A frame built for any payload that fits reads back as the target's code,
/// the USB host as source, and the same payload.
pub proof fn lemma_frame_round_trip(target: AP2Target, payload: Seq<u8>)
    requires
        payload.len() <= MAX_PAYLOAD,
    ensures
        frame_of(target, payload).len() == FRAME_LEN,
        frame_ok(frame_of(target, payload)),
        frame_target(frame_of(target, payload)) == target_code(target),
        frame_source(frame_of(target, payload)) == target_code(AP2Target::UsbHost),
        frame_payload(frame_of(target, payload)) == payload,
{
    let f = frame_of(target, payload);
    let h = frame_header(target, payload.len());
    assert(f[0] == START_MARKER && f[2] == h[2] && f[4] == h[4] && f[7] == END_MARKER);
    assert(frame_payload(f) =~= payload);
}

/// Of a payload of the largest size the frame holds no padding: it ends
/// with the payload's last byte.
pub proof fn lemma_full_frame_unpadded(target: AP2Target, payload: Seq<u8>)
    requires
        payload.len() == MAX_PAYLOAD,
    ensures
        frame_of(target, payload) == frame_header(target, payload.len()) + payload,
{
    assert(zeros(0) =~= Seq::<u8>::empty());
    assert(frame_header(target, payload.len()) + payload + zeros(0) =~= frame_header(target, payload.len()) + payload);
}

} // verus!
