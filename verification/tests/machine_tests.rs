use forte::midi::{dispatch_batch, dispatch_event, MidiEvent, SynthChannelAction};
use forte::midi_pool::MIDIRendererStatus;
use forte::render_machine::{
    writer_accepts, BatchStep, DrainStep, RenderMachine, RenderPhase, SynthBroadcast,
};

#[test]
fn batch_slices_and_dispatches() {
    let mut m = RenderMachine::new(48000, 2, 0, 0);
    m.begin();
    let events = vec![
        MidiEvent::NoteOn { channel: 3, key: 60, velocity: 127 },
        MidiEvent::Other,
        MidiEvent::NoteOff { channel: 3, key: 60 },
    ];
    match m.on_batch(250_000, &events) {
        BatchStep::Proceed { slices, slice_times, dispatches } => {
            assert_eq!(slices, vec![4800, 4800, 2400]);
            // One statistics instant per slice, cumulative and exact.
            assert_eq!(slice_times, vec![100_000, 200_000, 250_000]);
            assert_eq!(
                dispatches,
                vec![
                    SynthChannelAction::NoteOn { channel: 3, key: 60, vel: 127 },
                    SynthChannelAction::NoteOff { channel: 3, key: 60 },
                ]
            );
        }
        BatchStep::Stopped => panic!("a running job must render its batch"),
    }
    assert_eq!(m.time_micros, 250_000);
    assert_eq!(m.slice_buffer_len(4800), 9600);
}

#[test]
fn cancelled_job_forwards_no_block() {
    // After cancelling, no further PCM block is planned, the writer gate
    // refuses every block, and the first silent probe finishes the job.
    let mut m = RenderMachine::new(48000, 1, 0, 0);
    m.begin();
    m.cancel();
    let events = vec![MidiEvent::NoteOn { channel: 0, key: 64, velocity: 100 }];
    match m.on_batch(500_000, &events) {
        BatchStep::Stopped => {}
        BatchStep::Proceed { .. } => panic!("a cancelled job must not render"),
    }
    assert!(!writer_accepts(false));

    let (b1, b2) = m.begin_drain();
    assert_eq!(b1, SynthBroadcast::AllNotesOff);
    assert_eq!(b2, SynthBroadcast::ResetControl);
    assert_eq!(m.on_probe(false), DrainStep::Forward);
    assert_eq!(m.on_probe(true), DrainStep::Stop);
    assert_eq!(m.status, MIDIRendererStatus::Finished);
    assert_eq!(m.phase, RenderPhase::Done);
}

#[test]
fn drain_probes_until_silence() {
    let mut m = RenderMachine::new(44100, 2, 0, 0);
    m.begin();
    m.begin_drain();
    assert_eq!(m.probe_frames(), 44100);
    assert_eq!(m.on_probe(false), DrainStep::Forward);
    assert_eq!(m.on_probe(false), DrainStep::Forward);
    assert_eq!(m.status, MIDIRendererStatus::Rendering);
    assert_eq!(m.on_probe(true), DrainStep::Stop);
    assert_eq!(m.status, MIDIRendererStatus::Finished);
}

#[test]
fn velocity_ignore_range_drops_note_ons() {
    let on = |vel: u8| MidiEvent::NoteOn { channel: 0, key: 60, velocity: vel };
    // The range is inclusive on both ends.
    assert_eq!(dispatch_event(&on(10), 10, 20), None);
    assert_eq!(dispatch_event(&on(20), 10, 20), None);
    assert_eq!(dispatch_event(&on(15), 10, 20), None);
    assert!(dispatch_event(&on(9), 10, 20).is_some());
    assert!(dispatch_event(&on(21), 10, 20).is_some());
    // Only note-ons are filtered.
    assert!(dispatch_event(&MidiEvent::NoteOff { channel: 0, key: 60 }, 0, 127).is_some());
}

#[test]
fn dispatch_maps_every_event_kind() {
    let events = vec![
        MidiEvent::ControlChange { channel: 1, controller: 7, value: 100 },
        MidiEvent::PitchWheelChange { channel: 2, pitch: -4096 },
        MidiEvent::ProgramChange { channel: 9, program: 42 },
    ];
    let actions = dispatch_batch(&events, 0, 0);
    assert_eq!(
        actions,
        vec![
            SynthChannelAction::Control { channel: 1, controller: 7, value: 100 },
            SynthChannelAction::PitchBend { channel: 2, pitch: -4096 },
            SynthChannelAction::ProgramChange { channel: 9, program: 42 },
        ]
    );
}

#[test]
fn time_and_carry_advance_across_batches() {
    let mut m = RenderMachine::new(44100, 1, 0, 0);
    m.begin();
    let mut frames: u64 = 0;
    for _ in 0..3 {
        match m.on_batch(333_333, &Vec::new()) {
            BatchStep::Proceed { slices, .. } => {
                frames += slices.iter().sum::<u64>();
            }
            BatchStep::Stopped => panic!("job is running"),
        }
    }
    assert_eq!(m.time_micros, 999_999);
    assert_eq!(frames * 1_000_000 + m.carry_ppm, 44100 * 999_999);
}
