//! Classification of raw MIDI messages.

use vstd::prelude::*;

verus! {

/// Status byte of a note-on message on the first channel.
pub const NOTE_ON_STATUS: u8 = 144;

/// Status byte of a note-off message on the first channel.
pub const NOTE_OFF_STATUS: u8 = 128;

/// What a MIDI message means to the strip.
#[derive(Debug, Clone, Copy, PartialEq, Eq, Structural)]
pub enum MidiEventType {
    NoteOn,
    NoteOff,
    ControlChange,
}

/// The kind of a message with the given status byte and velocity.
///
/// A note-on with velocity zero is a release; everything that is neither a
/// press nor a release counts as a control change.
pub open spec fn event_type_of(status: u8, velocity: u8) -> MidiEventType {
    if status == NOTE_ON_STATUS && velocity > 0 {
        MidiEventType::NoteOn
    } else if status == NOTE_OFF_STATUS || (status == NOTE_ON_STATUS && velocity == 0) {
        MidiEventType::NoteOff
    } else {
        MidiEventType::ControlChange
    }
}

/// Classifies a message by its status byte and velocity.
pub fn get_midi_event_type(status: u8, velocity: u8) -> (kind: MidiEventType)
    ensures
        kind == event_type_of(status, velocity),
{
    if status == NOTE_ON_STATUS && velocity > 0 {
        MidiEventType::NoteOn
    } else if status == NOTE_OFF_STATUS || (status == NOTE_ON_STATUS && velocity == 0) {
        MidiEventType::NoteOff
    } else {
        MidiEventType::ControlChange
    }
}

/// The time in microseconds that `ticks` ticks take when a beat lasts
/// `beat_micros` microseconds and has `ticks_per_beat` ticks, rounded down.
pub open spec fn delay_of(ticks: u32, beat_micros: u32, ticks_per_beat: u16) -> int {
    ticks * beat_micros / (ticks_per_beat as int)
}

/// How long to wait before an event of a recorded song that comes `ticks`
/// ticks after the one before it.
pub fn playback_delay_micros(ticks: u32, beat_micros: u32, ticks_per_beat: u16) -> (micros: u64)
    requires
        ticks_per_beat > 0,
    ensures
        micros == delay_of(ticks, beat_micros, ticks_per_beat),
{
    assert(0 <= ticks * beat_micros <= 0xffff_ffff * 0xffff_ffff) by (nonlinear_arith)
        requires
            0 <= ticks <= 0xffff_ffff,
            0 <= beat_micros <= 0xffff_ffff,
    ;
    ticks as u64 * beat_micros as u64 / ticks_per_beat as u64
}

} // verus!
