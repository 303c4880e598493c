//! One sounding note: its identity, its pitch and its cursor into the shared
//! envelope table.
use vstd::prelude::*;

verus! {

/// The window of the envelope table that one voice reads for one block:
/// `count` gains starting at table index `start`, then `silent` zeros.
#[derive(Clone, Copy, Debug, PartialEq, Eq, Structural)]
pub struct EnvelopeSpan {
    pub start: usize,
    pub count: usize,
    pub silent: usize,
}

/// A single voice. The envelope gains themselves live in a table shared by
/// every voice; a voice only holds the table's length and its cursor in it.
#[derive(Clone, Copy, Debug, PartialEq, Eq, Structural)]
pub struct Voice {
    /// The voice's unique id; later voices get larger ids.
    pub id: u64,
    /// The bit pattern of the voice's MIDI note number.
    pub note: u32,
    /// The cursor into the envelope table.
    pub envelope_idx: usize,
    /// The length of the envelope table.
    pub envelope_len: usize,
}

/// The envelope entries that the voice has not read yet.
pub open spec fn envelope_remaining(v: Voice) -> nat {
    if v.envelope_idx <= v.envelope_len {
        (v.envelope_len - v.envelope_idx) as nat
    } else {
        0
    }
}

/// How many table entries a block of `block_len` samples reads.
pub open spec fn envelope_read(v: Voice, block_len: nat) -> nat {
    if envelope_remaining(v) < block_len {
        envelope_remaining(v)
    } else {
        block_len
    }
}

/// The span that a block of `block_len` samples reads from the table.
pub open spec fn envelope_span(v: Voice, block_len: nat) -> EnvelopeSpan {
    EnvelopeSpan {
        start: v.envelope_idx,
        count: envelope_read(v, block_len) as usize,
        silent: (block_len - envelope_read(v, block_len)) as usize,
    }
}

/// The voice after a block of `block_len` samples: the cursor has moved over
/// the entries read, and nothing else has changed.
pub open spec fn envelope_advanced(v: Voice, block_len: nat) -> Voice {
    Voice { envelope_idx: (v.envelope_idx + envelope_read(v, block_len)) as usize, ..v }
}

/// A voice is finished once its cursor lies strictly past the table's end.
pub open spec fn is_finished(v: Voice) -> bool {
    v.envelope_idx > v.envelope_len
}

impl Voice {
    /// A voice at the start of its envelope.
    pub fn new(id: u64, note: u32, envelope_len: usize) -> (r: Voice)
        ensures
            r == (Voice { id, note, envelope_idx: 0, envelope_len }),
    {
        Voice { id, note, envelope_idx: 0, envelope_len }
    }

    /// Whether the cursor lies strictly past the end of the table. A cursor
    /// standing exactly at the end still counts as active.
    pub fn envelope_is_finished(&self) -> (r: bool)
        ensures
            r == is_finished(*self),
    {
        self.envelope_idx > self.envelope_len
    }

    /// Reads the envelope for the next `block_len` samples: the entries that
    /// remain, up to `block_len` of them, then silence. The cursor never moves
    /// past the end of the table.
    pub fn next_envelope_block(&mut self, block_len: usize) -> (span: EnvelopeSpan)
        ensures
            span == envelope_span(*old(self), block_len as nat),
            *final(self) == envelope_advanced(*old(self), block_len as nat),
            span.count + span.silent == block_len,
            span.start + span.count <= old(self).envelope_len || span.count == 0,
    {
        let pos = self.envelope_idx;
        let rem: usize = if pos <= self.envelope_len {
            self.envelope_len - pos
        } else {
            0
        };
        let num_iters: usize = if rem < block_len {
            rem
        } else {
            block_len
        };
        self.envelope_idx = pos + num_iters;
        EnvelopeSpan { start: pos, count: num_iters, silent: block_len - num_iters }
    }
}

} // verus!
