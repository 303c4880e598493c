use rhythmic_shapes::{
    str_to_option, AtomicOps, BlockScheduler, EnvelopeSpan, NoteEvent, NoteEventData,
    RenderStep, UIComponentState, Voice, VoiceHandler, BUFFER_SIZE, MAX_BLOCK_SIZE, NUM_VOICES,
};
use std::sync::atomic::{AtomicBool, AtomicU32, AtomicUsize};

const ENV_LEN: usize = 13230;

fn note_on(timing: u32, note: f32) -> NoteEvent {
    NoteEvent::NoteOn { timing, data: NoteEventData::new(note.to_bits()) }
}

/// Runs the scheduler over one buffer, fetching events from `events` in
/// order, and returns every step taken.
fn run_buffer(
    handler: &mut VoiceHandler,
    buffer_len: usize,
    events: &[NoteEvent],
) -> Vec<RenderStep> {
    let mut sched = BlockScheduler::new(buffer_len);
    let mut queue = events.iter().copied();
    let mut pending = queue.next();
    let mut steps = Vec::new();
    loop {
        let step = sched.next_step(handler, pending);
        steps.push(step);
        match step {
            RenderStep::VoiceStarted { .. } => pending = queue.next(),
            RenderStep::Finished => break,
            RenderStep::NoteOffUnsupported => break,
            RenderStep::Block { .. } => {}
        }
    }
    steps
}

fn blocks(steps: &[RenderStep]) -> Vec<(usize, usize)> {
    steps
        .iter()
        .filter_map(|s| match s {
            RenderStep::Block { start, end, .. } => Some((*start, *end)),
            _ => None,
        })
        .collect()
}

fn active(handler: &VoiceHandler) -> usize {
    handler.voices.iter().filter(|v| v.is_some()).count()
}

#[test]
fn str_to_option_empty_and_non_empty() {
    assert_eq!(str_to_option(""), None);
    assert_eq!(str_to_option("Tempo"), Some(String::from("Tempo")));
}

#[test]
fn component_state_defaults_to_idle() {
    assert_eq!(UIComponentState::default(), UIComponentState::Idle);
}

#[test]
fn note_event_accessors() {
    let on = note_on(17, 60.5);
    assert_eq!(on.timing(), 17);
    assert_eq!(f32::from_bits(on.note()), 60.5);
    let off = NoteEvent::NoteOff { timing: 3, data: NoteEventData::new(64.0f32.to_bits()) };
    assert_eq!(off.timing(), 3);
    assert_eq!(f32::from_bits(off.note()), 64.0);
}

#[test]
fn note_on_timing_folds_into_one_buffer() {
    let data = NoteEventData::new(69.0f32.to_bits());
    let ev = NoteEvent::note_on_at(1000, data);
    assert_eq!(ev.timing(), 1000 % BUFFER_SIZE);
    assert_eq!(ev.timing(), 488);
    assert_eq!(NoteEvent::note_on_at(511, data).timing(), 511);
    assert_eq!(NoteEvent::note_on_at(512, data).timing(), 0);
}

#[test]
fn voice_finishes_only_past_the_table_end() {
    let mut v = Voice::new(1, 60.0f32.to_bits(), 100);
    assert_eq!(v.envelope_idx, 0);
    assert!(!v.envelope_is_finished());
    v.envelope_idx = 100;
    assert!(!v.envelope_is_finished());
    v.envelope_idx = 101;
    assert!(v.envelope_is_finished());
}

#[test]
fn envelope_block_reads_what_remains_then_silence() {
    let mut v = Voice::new(1, 0, 100);
    assert_eq!(v.next_envelope_block(64), EnvelopeSpan { start: 0, count: 64, silent: 0 });
    assert_eq!(v.envelope_idx, 64);
    assert_eq!(v.next_envelope_block(64), EnvelopeSpan { start: 64, count: 36, silent: 28 });
    assert_eq!(v.envelope_idx, 100);
    assert_eq!(v.next_envelope_block(10), EnvelopeSpan { start: 100, count: 0, silent: 10 });
    assert_eq!(v.envelope_idx, 100);
    assert!(!v.envelope_is_finished());
}

#[test]
fn envelope_block_past_the_end_reads_nothing() {
    let mut v = Voice::new(1, 0, 10);
    v.envelope_idx = 12;
    assert_eq!(v.next_envelope_block(5), EnvelopeSpan { start: 12, count: 0, silent: 5 });
    assert_eq!(v.envelope_idx, 12);
}

#[test]
fn sixteen_starts_fill_every_slot_in_order() {
    let mut h = VoiceHandler::build(ENV_LEN);
    assert!(!h.is_voice_active());
    for k in 0..NUM_VOICES {
        let slot = h.start_voice(60.0f32.to_bits());
        assert_eq!(slot, k);
    }
    for (k, v) in h.voices.iter().enumerate() {
        let v = v.expect("slot filled");
        assert_eq!(v.id, k as u64 + 1);
        assert_eq!(v.envelope_idx, 0);
        assert_eq!(v.envelope_len, ENV_LEN);
    }
    assert_eq!(active(&h), NUM_VOICES);
}

#[test]
fn seventeenth_start_evicts_the_smallest_id() {
    let mut h = VoiceHandler::build(ENV_LEN);
    for _ in 0..NUM_VOICES {
        h.start_voice(60.0f32.to_bits());
    }
    let before = h.voices;
    let slot = h.start_voice(72.0f32.to_bits());
    assert_eq!(slot, 0);
    let v = h.voices[0].unwrap();
    assert_eq!(v.id, 17);
    assert_eq!(f32::from_bits(v.note), 72.0);
    for k in 1..NUM_VOICES {
        assert_eq!(h.voices[k], before[k]);
    }
    // the next one takes the voice with id 2
    assert_eq!(h.start_voice(0), 1);
    assert_eq!(h.voices[1].unwrap().id, 18);
}

#[test]
fn stealing_follows_ids_not_slots() {
    let mut h = VoiceHandler::build(ENV_LEN);
    for _ in 0..NUM_VOICES {
        h.start_voice(0);
    }
    h.voices[9].as_mut().unwrap().id = 0;
    assert_eq!(h.start_voice(0), 9);
}

#[test]
fn free_slot_is_preferred_to_stealing() {
    let mut h = VoiceHandler::build(ENV_LEN);
    for _ in 0..NUM_VOICES {
        h.start_voice(0);
    }
    h.voices[7] = None;
    h.voices[11] = None;
    assert_eq!(h.start_voice(0), 7);
    assert_eq!(h.start_voice(0), 11);
}

#[test]
fn ids_wrap_around() {
    let mut h = VoiceHandler::build(ENV_LEN);
    h.id_counter = u64::MAX;
    let slot = h.start_voice(0);
    assert_eq!(h.voices[slot].unwrap().id, 0);
    assert_eq!(h.id_counter, 0);
}

#[test]
fn terminate_removes_exactly_the_finished_voices() {
    let mut h = VoiceHandler::build(100);
    for _ in 0..4 {
        h.start_voice(0);
    }
    h.voices[1].as_mut().unwrap().envelope_idx = 101;
    h.voices[2].as_mut().unwrap().envelope_idx = 100;
    h.voices[3].as_mut().unwrap().envelope_idx = 250;
    let kept0 = h.voices[0];
    let kept2 = h.voices[2];
    h.terminate_finished_voices();
    assert_eq!(h.voices[0], kept0);
    assert_eq!(h.voices[1], None);
    assert_eq!(h.voices[2], kept2);
    assert_eq!(h.voices[3], None);
    assert_eq!(active(&h), 2);
}

#[test]
fn kill_clears_all_slots() {
    let mut h = VoiceHandler::build(ENV_LEN);
    for _ in 0..5 {
        h.start_voice(0);
    }
    assert!(h.is_voice_active());
    h.kill_active_voices();
    assert!(!h.is_voice_active());
    assert_eq!(active(&h), 0);
    assert_eq!(h.start_voice(0), 0);
    assert_eq!(h.voices[0].unwrap().id, 6);
}

#[test]
fn process_block_advances_only_active_voices() {
    let mut h = VoiceHandler::build(50);
    h.start_voice(0);
    h.start_voice(0);
    h.voices[1].as_mut().unwrap().envelope_idx = 40;
    let spans = h.process_block(64, 84);
    assert_eq!(spans[0], Some(EnvelopeSpan { start: 0, count: 20, silent: 0 }));
    assert_eq!(spans[1], Some(EnvelopeSpan { start: 40, count: 10, silent: 10 }));
    for s in &spans[2..] {
        assert_eq!(*s, None);
    }
    assert_eq!(h.voices[0].unwrap().envelope_idx, 20);
    assert_eq!(h.voices[1].unwrap().envelope_idx, 50);
    assert_eq!(h.voices[2], None);
}

#[test]
fn scheduler_without_events_uses_full_blocks() {
    let mut h = VoiceHandler::build(ENV_LEN);
    let steps = run_buffer(&mut h, 512, &[]);
    let expected: Vec<(usize, usize)> =
        (0..8).map(|k| (k * MAX_BLOCK_SIZE, (k + 1) * MAX_BLOCK_SIZE)).collect();
    assert_eq!(blocks(&steps), expected);
    assert!(matches!(steps.last(), Some(RenderStep::Finished)));
}

#[test]
fn scheduler_short_and_empty_buffers() {
    let mut h = VoiceHandler::build(ENV_LEN);
    assert_eq!(blocks(&run_buffer(&mut h, 100, &[])), vec![(0, 64), (64, 100)]);
    let steps = run_buffer(&mut h, 0, &[]);
    assert_eq!(steps.len(), 1);
    assert!(matches!(steps[0], RenderStep::Finished));
}

#[test]
fn event_inside_a_block_forces_a_boundary() {
    let mut h = VoiceHandler::build(ENV_LEN);
    let steps = run_buffer(&mut h, 128, &[note_on(100, 69.0)]);
    assert_eq!(blocks(&steps), vec![(0, 64), (64, 100), (100, 128)]);
    // the voice starts after the block that ends at 100 and sounds only in the last one
    let mut started_at = None;
    for (k, s) in steps.iter().enumerate() {
        match s {
            RenderStep::VoiceStarted { slot, note } => {
                assert_eq!(*slot, 0);
                assert_eq!(f32::from_bits(*note), 69.0);
                started_at = Some(k);
            }
            RenderStep::Block { start, end, spans } => {
                if *end <= 100 {
                    assert!(spans.iter().all(|s| s.is_none()));
                } else {
                    assert_eq!(*start, 100);
                    assert_eq!(spans[0], Some(EnvelopeSpan { start: 0, count: 28, silent: 0 }));
                }
            }
            _ => {}
        }
    }
    assert_eq!(started_at, Some(2));
    assert_eq!(h.voices[0].unwrap().envelope_idx, 28);
}

#[test]
fn simultaneous_events_at_start_both_sound_from_frame_zero() {
    let mut h = VoiceHandler::build(ENV_LEN);
    let steps = run_buffer(&mut h, 128, &[note_on(0, 60.0), note_on(0, 64.0)]);
    assert!(matches!(steps[0], RenderStep::VoiceStarted { slot: 0, .. }));
    assert!(matches!(steps[1], RenderStep::VoiceStarted { slot: 1, .. }));
    match steps[2] {
        RenderStep::Block { start, end, spans } => {
            assert_eq!((start, end), (0, 64));
            assert_eq!(spans[0], Some(EnvelopeSpan { start: 0, count: 64, silent: 0 }));
            assert_eq!(spans[1], Some(EnvelopeSpan { start: 0, count: 64, silent: 0 }));
        }
        _ => panic!("expected a block"),
    }
    assert_eq!(blocks(&steps), vec![(0, 64), (64, 128)]);
}

#[test]
fn more_note_ons_than_voices_in_one_buffer() {
    let mut h = VoiceHandler::build(ENV_LEN);
    let events: Vec<NoteEvent> = (0..40).map(|k| note_on(k * 3, 48.0 + k as f32)).collect();
    let steps = run_buffer(&mut h, 512, &events);
    let started = steps.iter().filter(|s| matches!(s, RenderStep::VoiceStarted { .. })).count();
    assert_eq!(started, 40);
    assert_eq!(h.voices.len(), NUM_VOICES);
    assert_eq!(active(&h), NUM_VOICES);
    let mut ids: Vec<u64> = h.voices.iter().map(|v| v.unwrap().id).collect();
    ids.sort();
    assert_eq!(ids, (25..=40).collect::<Vec<u64>>());
    let b = blocks(&steps);
    assert_eq!(b.first().unwrap().0, 0);
    assert_eq!(b.last().unwrap().1, 512);
    for w in b.windows(2) {
        assert_eq!(w[0].1, w[1].0);
    }
}

#[test]
fn due_note_off_is_reported_and_changes_nothing() {
    let mut h = VoiceHandler::build(ENV_LEN);
    let mut sched = BlockScheduler::new(128);
    let off = NoteEvent::NoteOff { timing: 0, data: NoteEventData::new(0) };
    let before = sched;
    assert!(matches!(sched.next_step(&mut h, Some(off)), RenderStep::NoteOffUnsupported));
    assert_eq!(sched, before);
    assert!(!h.is_voice_active());
}

#[test]
fn future_note_off_still_cuts_the_block() {
    let mut h = VoiceHandler::build(ENV_LEN);
    let mut sched = BlockScheduler::new(128);
    let off = NoteEvent::NoteOff { timing: 10, data: NoteEventData::new(0) };
    match sched.next_step(&mut h, Some(off)) {
        RenderStep::Block { start, end, .. } => assert_eq!((start, end), (0, 10)),
        _ => panic!("expected a block"),
    }
    assert_eq!((sched.block_start, sched.block_end), (10, 74));
}

#[test]
fn event_beyond_the_buffer_is_never_due() {
    let mut h = VoiceHandler::build(ENV_LEN);
    let steps = run_buffer(&mut h, 128, &[note_on(600, 60.0)]);
    assert_eq!(blocks(&steps), vec![(0, 64), (64, 128)]);
    assert!(!h.is_voice_active());
}

#[test]
fn voices_finish_once_past_their_table() {
    let mut h = VoiceHandler::build(100);
    h.start_voice(0);
    let mut sched = BlockScheduler::new(256);
    while !sched.is_finished() {
        sched.next_step(&mut h, None);
    }
    // the cursor stops at the table's end, which still counts as active
    assert_eq!(h.voices[0].unwrap().envelope_idx, 100);
    assert!(h.is_voice_active());
}

#[test]
fn relaxed_atomic_shorthand() {
    let a = AtomicU32::new(3);
    a.sr(512);
    assert_eq!(a.lr(), 512);
    let b = AtomicUsize::new(0);
    b.sr(64);
    assert_eq!(b.lr(), 64);
    let c = AtomicBool::new(false);
    c.sr(true);
    assert!(c.lr());
}
