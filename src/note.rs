//! Note events handed from the control side to the render callback.
use vstd::prelude::*;

verus! {

/// The length of the audio buffers that the control side schedules against:
/// a note's timing is its sample offset modulo this length.
pub const BUFFER_SIZE: u32 = 512;

/// The payload of a note event.
///
/// The MIDI note number is a single-precision float; the engine never does
/// arithmetic on it, so it is carried as its IEEE-754 bit pattern
/// (`f32::to_bits`) and turned back into a pitch by the synthesis side.
#[derive(Clone, Copy, Debug, PartialEq, Eq, Structural)]
pub struct NoteEventData {
    note: u32,
}

impl NoteEventData {
    /// Wraps the bit pattern of a MIDI note number.
    pub fn new(note_bits: u32) -> (r: NoteEventData)
        ensures
            r.spec_note() == note_bits,
    {
        NoteEventData { note: note_bits }
    }

    /// The bit pattern of the note number.
    pub closed spec fn spec_note(&self) -> u32 {
        self.note
    }

    /// The bit pattern of the note number.
    pub fn note_bits(&self) -> (r: u32)
        ensures
            r == self.spec_note(),
    {
        self.note
    }
}

/// A raw note event; `timing` is the sample offset inside the buffer that is
/// being rendered when the event is received.
#[derive(Clone, Copy, Debug, PartialEq, Eq, Structural)]
pub enum NoteEvent {
    NoteOn { timing: u32, data: NoteEventData },
    NoteOff { timing: u32, data: NoteEventData },
}

impl NoteEvent {
    /// The sample offset of the event, whatever its kind.
    pub open spec fn spec_timing(&self) -> u32 {
        match self {
            NoteEvent::NoteOn { timing, .. } => *timing,
            NoteEvent::NoteOff { timing, .. } => *timing,
        }
    }

    /// The note number's bit pattern, whatever the kind of event.
    pub open spec fn spec_note(&self) -> u32 {
        match self {
            NoteEvent::NoteOn { data, .. } => data.spec_note(),
            NoteEvent::NoteOff { data, .. } => data.spec_note(),
        }
    }

    pub fn timing(&self) -> (r: u32)
        ensures
            r == self.spec_timing(),
    {
        match self {
            NoteEvent::NoteOn { timing, .. } => *timing,
            NoteEvent::NoteOff { timing, .. } => *timing,
        }
    }

    pub fn note(&self) -> (r: u32)
        ensures
            r == self.spec_note(),
    {
        match self {
            NoteEvent::NoteOn { data, .. } => data.note_bits(),
            NoteEvent::NoteOff { data, .. } => data.note_bits(),
        }
    }

    /// A note-on event for a note triggered `samples_elapsed` samples after
    /// the start of the last rendered buffer: its timing is that count
    /// folded into one buffer of `BUFFER_SIZE` samples.
    pub fn note_on_at(samples_elapsed: u32, data: NoteEventData) -> (r: NoteEvent)
        ensures
            r == (NoteEvent::NoteOn { timing: samples_elapsed % BUFFER_SIZE, data }),
            r.spec_timing() < BUFFER_SIZE,
    {
        NoteEvent::NoteOn { timing: samples_elapsed % BUFFER_SIZE, data }
    }
}

} // verus!
