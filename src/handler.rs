//! The fixed pool of voices: allocation, oldest-first stealing, termination
//! and the per-block envelope bookkeeping.
use vstd::prelude::*;
use crate::pool::{
    block_span, block_voice, has_free_slot, is_oldest, lemma_start_slot_is, next_id,
    pool_after_start, slot_id, start_slot, is_start_slot,
};
use crate::voice::{is_finished, EnvelopeSpan, Voice};

verus! {

/// The number of slots in the voice pool.
pub const NUM_VOICES: usize = 16;

/// A pool of voices, each slot empty or holding one active voice.
#[derive(Debug)]
pub struct VoiceHandler {
    /// The slots of the pool.
    pub voices: [Option<Voice>; NUM_VOICES],
    /// The id of the most recently started voice (0 before the first).
    pub id_counter: u64,
    /// The length of the envelope table that new voices read.
    pub envelope_len: usize,
}

impl VoiceHandler {
    /// An empty pool whose voices read an envelope table of `envelope_len`
    /// entries.
    pub fn build(envelope_len: usize) -> (r: VoiceHandler)
        ensures
            forall|i: int| 0 <= i < NUM_VOICES ==> #[trigger] r.voices@[i] is None,
            r.id_counter == 0,
            r.envelope_len == envelope_len,
    {
        VoiceHandler { voices: [None; NUM_VOICES], id_counter: 0, envelope_len }
    }

    fn next_voice_id(&mut self) -> (r: u64)
        ensures
            r == next_id(old(self).id_counter),
            final(self).id_counter == r,
            final(self).voices == old(self).voices,
            final(self).envelope_len == old(self).envelope_len,
    {
        self.id_counter = self.id_counter.wrapping_add(1);
        self.id_counter
    }

    /// Starts a voice for `note` with a fresh id and returns its slot: the
    /// lowest empty slot, or, when every slot is taken, the slot of the voice
    /// with the smallest id, which is evicted. No other slot changes.
    pub fn start_voice(&mut self, note: u32) -> (slot: usize)
        ensures
            is_start_slot(old(self).voices@, slot as int),
            slot == start_slot(old(self).voices@),
            final(self).voices@ == pool_after_start(
                old(self).voices@,
                Voice {
                    id: next_id(old(self).id_counter),
                    note,
                    envelope_idx: 0,
                    envelope_len: old(self).envelope_len,
                },
            ),
            final(self).id_counter == next_id(old(self).id_counter),
            final(self).envelope_len == old(self).envelope_len,
    {
        let id = self.next_voice_id();
        let new_voice = Voice::new(id, note, self.envelope_len);
        let ghost s = self.voices@;
        assert(s == old(self).voices@);

        let mut i: usize = 0;
        while i < NUM_VOICES
            invariant
                i <= NUM_VOICES,
                s == self.voices@,
                s == old(self).voices@,
                self.id_counter == id,
                id == next_id(old(self).id_counter),
                self.envelope_len == old(self).envelope_len,
                new_voice == (Voice { id, note, envelope_idx: 0, envelope_len: self.envelope_len }),
                forall|j: int| 0 <= j < i ==> #[trigger] s[j] is Some,
            decreases NUM_VOICES - i,
        {
            if self.voices[i].is_none() {
                proof {
                    assert(has_free_slot(s));
                    lemma_start_slot_is(s, i as int);
                }
                self.voices[i] = Some(new_voice);
                return i;
            }
            i = i + 1;
        }
        assert(!has_free_slot(s));

        let mut oldest: usize = 0;
        let mut k: usize = 1;
        while k < NUM_VOICES
            invariant
                1 <= k <= NUM_VOICES,
                oldest < k,
                s == self.voices@,
                s == old(self).voices@,
                self.id_counter == id,
                id == next_id(old(self).id_counter),
                self.envelope_len == old(self).envelope_len,
                new_voice == (Voice { id, note, envelope_idx: 0, envelope_len: self.envelope_len }),
                forall|j: int| 0 <= j < NUM_VOICES ==> #[trigger] s[j] is Some,
                forall|j: int| 0 <= j < k ==> #[trigger] slot_id(s, j) >= slot_id(s, oldest as int),
                forall|j: int| 0 <= j < oldest ==> #[trigger] slot_id(s, j) > slot_id(s, oldest as int),
            decreases NUM_VOICES - k,
        {
            let candidate = match self.voices[k] {
                Some(v) => v.id,
                None => 0,
            };
            let current = match self.voices[oldest] {
                Some(v) => v.id,
                None => 0,
            };
            if candidate < current {
                oldest = k;
            }
            k = k + 1;
        }
        proof {
            assert(is_oldest(s, oldest as int));
            lemma_start_slot_is(s, oldest as int);
        }
        self.voices[oldest] = Some(new_voice);
        oldest
    }

    /// Clears every slot at once.
    pub fn kill_active_voices(&mut self)
        ensures
            forall|i: int| 0 <= i < NUM_VOICES ==> #[trigger] final(self).voices@[i] is None,
            final(self).id_counter == old(self).id_counter,
            final(self).envelope_len == old(self).envelope_len,
    {
        let mut i: usize = 0;
        while i < NUM_VOICES
            invariant
                i <= NUM_VOICES,
                self.id_counter == old(self).id_counter,
                self.envelope_len == old(self).envelope_len,
                forall|j: int| 0 <= j < i ==> #[trigger] self.voices@[j] is None,
            decreases NUM_VOICES - i,
        {
            if self.voices[i].is_some() {
                self.voices[i] = None;
            }
            i = i + 1;
        }
    }

    /// Clears exactly the slots whose voice has finished its envelope; every
    /// other slot keeps its voice.
    pub fn terminate_finished_voices(&mut self)
        ensures
            forall|i: int|
                0 <= i < NUM_VOICES ==> #[trigger] final(self).voices@[i] == (if old(
                    self,
                ).voices@[i] is Some && is_finished(old(self).voices@[i]->Some_0) {
                    None
                } else {
                    old(self).voices@[i]
                }),
            final(self).id_counter == old(self).id_counter,
            final(self).envelope_len == old(self).envelope_len,
    {
        let mut i: usize = 0;
        while i < NUM_VOICES
            invariant
                i <= NUM_VOICES,
                self.id_counter == old(self).id_counter,
                self.envelope_len == old(self).envelope_len,
                forall|j: int|
                    0 <= j < i ==> #[trigger] self.voices@[j] == (if old(self).voices@[j] is Some
                        && is_finished(old(self).voices@[j]->Some_0) {
                        None
                    } else {
                        old(self).voices@[j]
                    }),
                forall|j: int| i <= j < NUM_VOICES ==> #[trigger] self.voices@[j] == old(self).voices@[j],
            decreases NUM_VOICES - i,
        {
            let finished = match &self.voices[i] {
                Some(v) => v.envelope_is_finished(),
                None => false,
            };
            if finished {
                self.voices[i] = None;
            }
            i = i + 1;
        }
    }

    /// Whether any slot holds a voice.
    pub fn is_voice_active(&self) -> (r: bool)
        ensures
            r == exists|i: int| 0 <= i < NUM_VOICES && #[trigger] self.voices@[i] is Some,
    {
        let mut i: usize = 0;
        while i < NUM_VOICES
            invariant
                i <= NUM_VOICES,
                forall|j: int| 0 <= j < i ==> #[trigger] self.voices@[j] is None,
            decreases NUM_VOICES - i,
        {
            if self.voices[i].is_some() {
                return true;
            }
            i = i + 1;
        }
        false
    }

    /// Advances the envelope of every active voice over the block
    /// `[block_start, block_end)` and returns, slot by slot, the part of the
    /// envelope table that each voice reads for it. Empty slots stay empty
    /// and read nothing.
    pub fn process_block(&mut self, block_start: usize, block_end: usize) -> (spans: [Option<
        EnvelopeSpan,
    >; NUM_VOICES])
        requires
            block_start <= block_end,
        ensures
            forall|i: int|
                0 <= i < NUM_VOICES ==> #[trigger] spans@[i] == block_span(
                    old(self).voices@[i],
                    (block_end - block_start) as nat,
                ),
            forall|i: int|
                0 <= i < NUM_VOICES ==> #[trigger] final(self).voices@[i] == block_voice(
                    old(self).voices@[i],
                    (block_end - block_start) as nat,
                ),
            final(self).id_counter == old(self).id_counter,
            final(self).envelope_len == old(self).envelope_len,
    {
        let block_len = block_end - block_start;
        let mut spans: [Option<EnvelopeSpan>; NUM_VOICES] = [None; NUM_VOICES];
        let mut i: usize = 0;
        while i < NUM_VOICES
            invariant
                i <= NUM_VOICES,
                block_len == block_end - block_start,
                self.id_counter == old(self).id_counter,
                self.envelope_len == old(self).envelope_len,
                forall|j: int|
                    0 <= j < i ==> #[trigger] spans@[j] == block_span(
                        old(self).voices@[j],
                        block_len as nat,
                    ),
                forall|j: int|
                    0 <= j < i ==> #[trigger] self.voices@[j] == block_voice(
                        old(self).voices@[j],
                        block_len as nat,
                    ),
                forall|j: int| i <= j < NUM_VOICES ==> #[trigger] self.voices@[j] == old(self).voices@[j],
                forall|j: int| i <= j < NUM_VOICES ==> #[trigger] spans@[j] is None,
            decreases NUM_VOICES - i,
        {
            match self.voices[i] {
                Some(v) => {
                    let mut voice = v;
                    let span = voice.next_envelope_block(block_len);
                    self.voices[i] = Some(voice);
                    spans[i] = Some(span);
                },
                None => {},
            }
            i = i + 1;
        }
        spans
    }
}

} // verus!
