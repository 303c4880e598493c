//! The sub-block scheduler of the render callback.
//!
//! The callback splits each buffer into sub-blocks of at most
//! `MAX_BLOCK_SIZE` frames and ends a sub-block early wherever a pending note
//! event falls inside it, so that every event takes effect on its exact
//! frame. The host drives the scheduler one step at a time: it hands over the
//! pending event (if any), and the step either starts a voice for it, or
//! processes one sub-block, or reports that the buffer is complete.
use vstd::prelude::*;
use crate::handler::{VoiceHandler, NUM_VOICES};
use crate::pool::{block_span, block_voice, next_id, pool_after_start, start_slot};
use crate::note::NoteEvent;
use crate::voice::{is_finished, EnvelopeSpan, Voice};

verus! {

/// The largest sub-block, in frames.
pub const MAX_BLOCK_SIZE: usize = 64;

/// `min(a, b)` on naturals.
pub open spec fn min_nat(a: int, b: int) -> int {
    if a < b {
        a
    } else {
        b
    }
}

/// The pending event is due at or before frame `start`.
pub open spec fn is_due(event: Option<NoteEvent>, start: int) -> bool {
    event is Some && event->Some_0.spec_timing() as int <= start
}

/// Where the sub-block that would end at `end` really ends: at the pending
/// event when that falls before `end`.
pub open spec fn cut_block_end(event: Option<NoteEvent>, end: int) -> int {
    if event is Some && (event->Some_0.spec_timing() as int) < end {
        event->Some_0.spec_timing() as int
    } else {
        end
    }
}

/// One slot after a sub-block of `block_len` frames: its envelope has
/// advanced, and it is cleared if that voice has finished.
pub open spec fn slot_after_block(slot: Option<Voice>, block_len: nat) -> Option<Voice> {
    let b = block_voice(slot, block_len);
    if b is Some && is_finished(b->Some_0) {
        None
    } else {
        b
    }
}

/// What one step of the scheduler did.
#[derive(Clone, Copy, Debug)]
pub enum RenderStep {
    /// The pending note-on was due: a voice for `note` started in `slot`.
    /// The caller fetches the next pending event before the next step.
    VoiceStarted { slot: usize, note: u32 },
    /// The pending event is a due note-off, which the engine does not handle.
    /// Nothing has changed.
    NoteOffUnsupported,
    /// The sub-block `[start, end)` was processed: `spans` holds, slot by
    /// slot, the envelope window that each voice renders in it, and voices
    /// that finished have been cleared.
    Block { start: usize, end: usize, spans: [Option<EnvelopeSpan>; NUM_VOICES] },
    /// Every frame of the buffer has been processed.
    Finished,
}

/// The position of the scheduler in one buffer: the next sub-block is
/// `[block_start, block_end)` unless an event cuts it short.
#[derive(Clone, Copy, Debug, PartialEq, Eq, Structural)]
pub struct BlockScheduler {
    pub block_start: usize,
    pub block_end: usize,
    pub buffer_len: usize,
}

impl BlockScheduler {
    /// The sub-block bounds lie inside the buffer, span at most
    /// `MAX_BLOCK_SIZE` frames, and are not empty while frames remain.
    pub open spec fn wf(&self) -> bool {
        &&& self.block_start <= self.block_end <= self.buffer_len
        &&& self.block_end - self.block_start <= MAX_BLOCK_SIZE
        &&& self.block_start < self.buffer_len ==> self.block_start < self.block_end
    }

    /// A scheduler at the start of a buffer of `buffer_len` frames.
    pub fn new(buffer_len: usize) -> (r: BlockScheduler)
        ensures
            r.wf(),
            r.block_start == 0,
            r.block_end == min_nat(MAX_BLOCK_SIZE as int, buffer_len as int),
            r.buffer_len == buffer_len,
    {
        let block_end = if MAX_BLOCK_SIZE < buffer_len {
            MAX_BLOCK_SIZE
        } else {
            buffer_len
        };
        BlockScheduler { block_start: 0, block_end, buffer_len }
    }

    /// Whether every frame of the buffer has been processed.
    pub fn is_finished(&self) -> (r: bool)
        ensures
            r == (self.block_start >= self.buffer_len),
    {
        self.block_start >= self.buffer_len
    }

    /// One step of the render callback, given the pending event.
    ///
    /// - Past the end of the buffer it reports `Finished`.
    /// - A pending note-on due at or before the start of the sub-block starts
    ///   a voice; a due note-off is reported and changes nothing.
    /// - Otherwise the sub-block is processed, ending early at the pending
    ///   event's frame when that falls inside it, finished voices are
    ///   cleared, and the next sub-block starts where this one ended.
    pub fn next_step(&mut self, voices: &mut VoiceHandler, event: Option<NoteEvent>) -> (r:
        RenderStep)
        requires
            old(self).wf(),
        ensures
            final(self).wf(),
            final(self).buffer_len == old(self).buffer_len,
            final(voices).envelope_len == old(voices).envelope_len,
            old(self).block_start >= old(self).buffer_len ==> {
                &&& r is Finished
                &&& *final(self) == *old(self)
                &&& *final(voices) == *old(voices)
            },
            old(self).block_start < old(self).buffer_len && is_due(event, old(self).block_start as int)
                && event->Some_0 is NoteOn ==> {
                &&& r == (RenderStep::VoiceStarted {
                    slot: start_slot(old(voices).voices@) as usize,
                    note: event->Some_0.spec_note(),
                })
                &&& final(voices).voices@ == pool_after_start(
                    old(voices).voices@,
                    Voice {
                        id: next_id(old(voices).id_counter),
                        note: event->Some_0.spec_note(),
                        envelope_idx: 0,
                        envelope_len: old(voices).envelope_len,
                    },
                )
                &&& final(voices).id_counter == next_id(old(voices).id_counter)
                &&& *final(self) == *old(self)
            },
            old(self).block_start < old(self).buffer_len && is_due(event, old(self).block_start as int)
                && event->Some_0 is NoteOff ==> {
                &&& r is NoteOffUnsupported
                &&& *final(self) == *old(self)
                &&& *final(voices) == *old(voices)
            },
            old(self).block_start < old(self).buffer_len && !is_due(
                event,
                old(self).block_start as int,
            ) ==> {
                let end = cut_block_end(event, old(self).block_end as int);
                let len = (end - old(self).block_start) as nat;
                &&& r is Block
                &&& r->Block_start == old(self).block_start
                &&& r->Block_end == end
                &&& r->Block_start < r->Block_end
                &&& event is Some ==> r->Block_end <= event->Some_0.spec_timing()
                &&& forall|i: int|
                    0 <= i < NUM_VOICES ==> #[trigger] r->Block_spans@[i] == block_span(
                        old(voices).voices@[i],
                        len,
                    )
                &&& forall|i: int|
                    0 <= i < NUM_VOICES ==> #[trigger] final(voices).voices@[i] == slot_after_block(
                        old(voices).voices@[i],
                        len,
                    )
                &&& final(voices).id_counter == old(voices).id_counter
                &&& final(self).block_start == end
                &&& final(self).block_end == min_nat(
                    end + MAX_BLOCK_SIZE,
                    old(self).buffer_len as int,
                )
            },
    {
        if self.block_start >= self.buffer_len {
            return RenderStep::Finished;
        }
        let mut block_end = self.block_end;
        match event {
            Some(ev) => {
                let timing = ev.timing() as usize;
                if timing <= self.block_start {
                    match ev {
                        NoteEvent::NoteOn { .. } => {
                            let note = ev.note();
                            let slot = voices.start_voice(note);
                            return RenderStep::VoiceStarted { slot, note };
                        },
                        NoteEvent::NoteOff { .. } => {
                            return RenderStep::NoteOffUnsupported;
                        },
                    }
                } else if timing < block_end {
                    block_end = timing;
                }
            },
            None => {},
        }
        let block_start = self.block_start;
        let ghost before = voices.voices@;
        let spans = voices.process_block(block_start, block_end);
        let ghost during = voices.voices@;
        voices.terminate_finished_voices();
        assert forall|i: int| 0 <= i < NUM_VOICES implies #[trigger] voices.voices@[i]
            == slot_after_block(before[i], (block_end - block_start) as nat) by {
            assert(during[i] == block_voice(before[i], (block_end - block_start) as nat));
        }

        self.block_start = block_end;
        self.block_end = if self.buffer_len - block_end > MAX_BLOCK_SIZE {
            block_end + MAX_BLOCK_SIZE
        } else {
            self.buffer_len
        };
        RenderStep::Block { start: block_start, end: block_end, spans }
    }
}

} // verus!
