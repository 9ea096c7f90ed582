//! Decoding of raw MIDI bytes into domain events, and the filter that the
//! capture callback applies before forwarding an event to the compute
//! thread.

use vstd::prelude::*;

verus! {

/// A decoded MIDI event. The status nibble selects the variant; data bytes
/// follow it unchanged. A status byte outside the recognized range maps to
/// `Unrecongized`, which the pipeline treats as an end-of-stream sentinel.
#[derive(Debug, PartialEq, Eq, Structural, Clone, Copy)]
pub enum MidiEvent {
    NoteOn(u8, u8),
    NoteOff(u8, u8),
    PlyPrs(u8, u8),
    CtrlChg(u8, u8),
    ProgChg(u8),
    ChnlPrs(u8),
    PitchWheel(u16),
    RealTime(u8),
    Unrecongized,
}

/// A decoded event together with the driver time it was captured at.
#[derive(Debug, PartialEq, Eq, Structural, Clone, Copy)]
pub struct MidiMessage {
    pub time: u64,
    pub event: MidiEvent,
}

/// What a raw MIDI byte string decodes to.
pub open spec fn decoded_event(bytes: Seq<u8>) -> MidiEvent {
    let status = bytes[0] & 0xF0u8;
    if status == 0x80u8 {
        MidiEvent::NoteOff(bytes[1], bytes[2])
    } else if status == 0x90u8 {
        MidiEvent::NoteOn(bytes[1], bytes[2])
    } else if status == 0xA0u8 {
        MidiEvent::PlyPrs(bytes[1], bytes[2])
    } else if status == 0xB0u8 {
        MidiEvent::CtrlChg(bytes[1], bytes[2])
    } else if status == 0xC0u8 {
        MidiEvent::ProgChg(bytes[1])
    } else if status == 0xD0u8 {
        MidiEvent::ChnlPrs(bytes[1])
    } else if status == 0xE0u8 {
        MidiEvent::PitchWheel((bytes[1] + bytes[2] * 0x100) as u16)
    } else if status == 0xF0u8 {
        MidiEvent::RealTime(bytes[0] & 0xFu8)
    } else {
        MidiEvent::Unrecongized
    }
}

/// How many bytes of a raw MIDI string the decoder reads, given its status
/// byte: three for the two-data-byte messages, two for program change and
/// channel pressure, one otherwise.
pub open spec fn decoded_width(status: u8) -> int {
    let nibble = status & 0xF0u8;
    if nibble == 0xC0u8 || nibble == 0xD0u8 {
        2
    } else if 0x80u8 <= nibble && nibble <= 0xB0u8 || nibble == 0xE0u8 {
        3
    } else {
        1
    }
}

/// How many bytes a raw MIDI string must hold for its status byte, so a
/// caller can test a driver's event before handing it to the decoder.
pub fn needed_len(status: u8) -> (n: usize)
    ensures
        n == decoded_width(status),
{
    let nibble = status & 0xF0;
    if nibble == 0xC0 || nibble == 0xD0 {
        2
    } else if 0x80 <= nibble && nibble <= 0xB0 || nibble == 0xE0 {
        3
    } else {
        1
    }
}

/// Decodes one raw MIDI byte string, as the driver hands it to the capture
/// callback, into a timestamped event.
pub fn raw_to_mm(bytes: &[u8], time: u64) -> (mm: MidiMessage)
    requires
        bytes@.len() >= 1,
        bytes@.len() >= decoded_width(bytes@[0]),
    ensures
        mm.time == time,
        mm.event == decoded_event(bytes@),
{
    let status = bytes[0] & 0xF0;
    let event = if status == 0x80 {
        MidiEvent::NoteOff(bytes[1], bytes[2])
    } else if status == 0x90 {
        MidiEvent::NoteOn(bytes[1], bytes[2])
    } else if status == 0xA0 {
        MidiEvent::PlyPrs(bytes[1], bytes[2])
    } else if status == 0xB0 {
        MidiEvent::CtrlChg(bytes[1], bytes[2])
    } else if status == 0xC0 {
        MidiEvent::ProgChg(bytes[1])
    } else if status == 0xD0 {
        MidiEvent::ChnlPrs(bytes[1])
    } else if status == 0xE0 {
        let low = bytes[1] as u16;
        let high = bytes[2] as u16;
        proof {
            assert(high * 0x100 <= 0xFF00) by (nonlinear_arith)
                requires high <= 0xFF;
        }
        MidiEvent::PitchWheel(low + high * 0x100)
    } else if status == 0xF0 {
        MidiEvent::RealTime(bytes[0] & 0xF)
    } else {
        MidiEvent::Unrecongized
    };
    proof {
        assert(bytes@[0] == bytes[0 as int]);
    }
    MidiMessage { time, event }
}

/// What one non-blocking poll of the event queue came back with.
#[derive(Debug, PartialEq, Eq, Structural, Clone, Copy)]
pub enum PollResult {
    /// The callback thread had queued an event.
    Received(MidiMessage),
    /// Nothing queued this cycle.
    Empty,
    /// The callback thread is gone.
    Closed,
}

/// What the compute thread makes of one poll: an event passes through, an
/// empty queue yields nothing this cycle, and a closed queue becomes the
/// end-of-stream sentinel that unwinds the pipeline.
pub fn poll_event(r: PollResult) -> (e: Option<MidiMessage>)
    ensures
        r matches PollResult::Received(m) ==> e == Some(m),
        r is Empty ==> e is None,
        r is Closed ==> e == Some(MidiMessage { time: 0u64, event: MidiEvent::Unrecongized }),
{
    match r {
        PollResult::Received(m) => Some(m),
        PollResult::Empty => None,
        PollResult::Closed => Some(MidiMessage { time: 0, event: MidiEvent::Unrecongized }),
    }
}

/// The capture callback forwards every event except the two high-rate
/// real-time messages, timing clock and active sensing, which it drops.
pub fn should_forward(event: &MidiEvent) -> (keep: bool)
    ensures
        keep == !(event matches MidiEvent::RealTime(u) && (u == 8u8 || u == 0xEu8)),
{
    if let MidiEvent::RealTime(u) = event {
        !(*u == 0x8 || *u == 0xE)
    } else {
        true
    }
}

} // verus!
