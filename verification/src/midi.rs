//! The MIDI events the decode stream yields, and their dispatch to the
//! synthesizer: each event maps to at most one per-channel action, and a
//! note-on whose velocity falls inside the configured ignore range is
//! dropped.

use vstd::prelude::*;

verus! {

/// A decoded MIDI event, as the merged, tempo-canonicalized stream yields
/// it. `Other` stands for every event kind the synthesizer ignores.
#[derive(Clone, Copy, PartialEq, Eq, Structural, Debug)]
pub enum MidiEvent {
    NoteOn { channel: u8, key: u8, velocity: u8 },
    NoteOff { channel: u8, key: u8 },
    ControlChange { channel: u8, controller: u8, value: u8 },
    PitchWheelChange { channel: u8, pitch: i16 },
    ProgramChange { channel: u8, program: u8 },
    Other,
}

/// One action for one synthesizer channel. The pitch bend carries the raw
/// wheel value; the synthesizer's caller scales it to a fraction of the
/// bend range.
#[derive(Clone, Copy, PartialEq, Eq, Structural, Debug)]
pub enum SynthChannelAction {
    NoteOn { channel: u32, key: u8, vel: u8 },
    NoteOff { channel: u32, key: u8 },
    Control { channel: u32, controller: u8, value: u8 },
    PitchBend { channel: u32, pitch: i16 },
    ProgramChange { channel: u32, program: u8 },
}

/// What an event dispatches to: nothing for ignored kinds, nothing for a
/// note-on whose velocity lies within the inclusive ignore range, and the
/// matching channel action otherwise.
pub open spec fn spec_dispatch(e: MidiEvent, lo: u8, hi: u8) -> Option<SynthChannelAction> {
    match e {
        MidiEvent::NoteOn { channel, key, velocity } => {
            if lo <= velocity <= hi {
                None
            } else {
                Some(SynthChannelAction::NoteOn { channel: channel as u32, key, vel: velocity })
            }
        },
        MidiEvent::NoteOff { channel, key } => {
            Some(SynthChannelAction::NoteOff { channel: channel as u32, key })
        },
        MidiEvent::ControlChange { channel, controller, value } => {
            Some(SynthChannelAction::Control { channel: channel as u32, controller, value })
        },
        MidiEvent::PitchWheelChange { channel, pitch } => {
            Some(SynthChannelAction::PitchBend { channel: channel as u32, pitch })
        },
        MidiEvent::ProgramChange { channel, program } => {
            Some(SynthChannelAction::ProgramChange { channel: channel as u32, program })
        },
        MidiEvent::Other => None,
    }
}

/// The actions a whole event batch dispatches to, in order.
pub open spec fn spec_dispatch_all(events: Seq<MidiEvent>, lo: u8, hi: u8) -> Seq<
    SynthChannelAction,
>
    decreases events.len(),
{
    if events.len() == 0 {
        Seq::empty()
    } else {
        spec_dispatch_all(events.drop_last(), lo, hi) + (match spec_dispatch(
            events.last(),
            lo,
            hi,
        ) {
            Some(a) => seq![a],
            None => Seq::empty(),
        })
    }
}

/// Dispatches one event against the velocity ignore range.
pub fn dispatch_event(e: &MidiEvent, vel_ignore_lo: u8, vel_ignore_hi: u8) -> (r: Option<
    SynthChannelAction,
>)
    ensures
        r == spec_dispatch(*e, vel_ignore_lo, vel_ignore_hi),
{
    match *e {
        MidiEvent::NoteOn { channel, key, velocity } => {
            if vel_ignore_lo <= velocity && velocity <= vel_ignore_hi {
                None
            } else {
                Some(SynthChannelAction::NoteOn { channel: channel as u32, key, vel: velocity })
            }
        },
        MidiEvent::NoteOff { channel, key } => {
            Some(SynthChannelAction::NoteOff { channel: channel as u32, key })
        },
        MidiEvent::ControlChange { channel, controller, value } => {
            Some(SynthChannelAction::Control { channel: channel as u32, controller, value })
        },
        MidiEvent::PitchWheelChange { channel, pitch } => {
            Some(SynthChannelAction::PitchBend { channel: channel as u32, pitch })
        },
        MidiEvent::ProgramChange { channel, program } => {
            Some(SynthChannelAction::ProgramChange { channel: channel as u32, program })
        },
        MidiEvent::Other => None,
    }
}

/// Dispatches a whole batch, in stream order.
pub fn dispatch_batch(events: &Vec<MidiEvent>, vel_ignore_lo: u8, vel_ignore_hi: u8) -> (r: Vec<
    SynthChannelAction,
>)
    ensures
        r@ == spec_dispatch_all(events@, vel_ignore_lo, vel_ignore_hi),
{
    let mut out: Vec<SynthChannelAction> = Vec::new();
    let mut i: usize = 0;
    while i < events.len()
        invariant
            i <= events@.len(),
            out@ == spec_dispatch_all(events@.take(i as int), vel_ignore_lo, vel_ignore_hi),
        decreases events@.len() - i,
    {
        proof {
            assert(events@.take(i as int + 1).drop_last() =~= events@.take(i as int));
            assert(events@.take(i as int + 1).last() == events@[i as int]);
        }
        match dispatch_event(&events[i], vel_ignore_lo, vel_ignore_hi) {
            Some(a) => {
                out.push(a);
                proof {
                    assert(out@ =~= spec_dispatch_all(
                        events@.take(i as int + 1),
                        vel_ignore_lo,
                        vel_ignore_hi,
                    ));
                }
            },
            None => {
                proof {
                    assert(out@ =~= spec_dispatch_all(
                        events@.take(i as int + 1),
                        vel_ignore_lo,
                        vel_ignore_hi,
                    ));
                }
            },
        }
        i = i + 1;
    }
    proof {
        assert(events@.take(events@.len() as int) =~= events@);
    }
    out
}

} // verus!
