//! The per-file render loop's decision core, as a state machine: batches
//! are sliced and dispatched while the job runs, cancellation closes the
//! PCM path, and the drain phase probes the release tail until a silent
//! block marks the job Finished. The surrounding threads perform the
//! receives, the synthesis and the sends, and feed every outcome back in.

use vstd::prelude::*;
use crate::midi::{dispatch_batch, spec_dispatch_all, MidiEvent, SynthChannelAction};
use crate::midi_pool::MIDIRendererStatus;
use crate::timing::{frames_total, plan_slices, slice_count, MAX_SLICE_MICROS, MILLION};

verus! {

/// Where the per-file loop stands: consuming the decode stream, draining
/// the release tail, or done.
#[derive(Clone, Copy, PartialEq, Eq, Structural, Debug)]
pub enum RenderPhase {
    Receiving,
    Draining,
    Done,
}

/// What one received batch amounts to.
pub enum BatchStep {
    /// The job was cancelled: nothing is rendered and nothing reaches the
    /// writer; the caller proceeds to the drain.
    Stopped,
    /// The batch's slice plan: frames per slice, the stream time at each
    /// slice's end (the statistics update due once per slice), and the
    /// channel actions the batch's events dispatch to.
    Proceed { slices: Vec<u64>, slice_times: Vec<u64>, dispatches: Vec<SynthChannelAction> },
}

/// What to do with one rendered drain probe.
#[derive(Clone, Copy, PartialEq, Eq, Structural, Debug)]
pub enum DrainStep {
    /// The tail still sounds: forward the probe block to the writer and
    /// probe again.
    Forward,
    /// The probe was silent: the tail has decayed, the job is finished.
    Stop,
}

/// The broadcasts sent to every channel when the stream ends or the job is
/// cancelled, in order.
#[derive(Clone, Copy, PartialEq, Eq, Structural, Debug)]
pub enum SynthBroadcast {
    AllNotesOff,
    ResetControl,
}

/// The decision core of one file's render loop.
#[derive(Clone, Copy, PartialEq, Eq, Structural, Debug)]
pub struct RenderMachine {
    pub status: MIDIRendererStatus,
    pub phase: RenderPhase,
    pub allow: bool,
    pub sample_rate: u32,
    pub audio_channels: u16,
    pub vel_ignore_lo: u8,
    pub vel_ignore_hi: u8,
    /// The sub-frame remainder carried between slices, in millionths of a
    /// frame.
    pub carry_ppm: u64,
    /// Rendered stream time so far, in microseconds.
    pub time_micros: u64,
}

/// The machine after a cancellation: only the permission flag changes.
pub open spec fn spec_cancel(m: RenderMachine) -> RenderMachine {
    RenderMachine { allow: false, ..m }
}

/// The machine after one drain probe: a silent probe finishes the job, a
/// sounding one changes nothing; a finished machine stays finished.
pub open spec fn spec_on_probe(m: RenderMachine, silent: bool) -> RenderMachine {
    if m.phase is Draining && silent {
        RenderMachine { status: MIDIRendererStatus::Finished, phase: RenderPhase::Done, ..m }
    } else {
        m
    }
}

/// The machine after a whole sequence of drain probes.
pub open spec fn run_drain(m: RenderMachine, probes: Seq<bool>) -> RenderMachine
    decreases probes.len(),
{
    if probes.len() == 0 {
        m
    } else {
        run_drain(spec_on_probe(m, probes[0]), probes.drop_first())
    }
}

impl RenderMachine {
    /// The machine's invariant: a sane channel count and a sub-frame carry.
    pub open spec fn wf(&self) -> bool {
        &&& self.audio_channels >= 1
        &&& self.carry_ppm < MILLION
    }

    /// A fresh machine for one file: idle, allowed to run, with no carry
    /// and no elapsed time.
    pub fn new(sample_rate: u32, audio_channels: u16, vel_ignore_lo: u8, vel_ignore_hi: u8) -> (r:
        Self)
        requires
            audio_channels >= 1,
        ensures
            r.wf(),
            r.status is Idle,
            r.phase is Receiving,
            r.allow,
            r.sample_rate == sample_rate,
            r.audio_channels == audio_channels,
            r.vel_ignore_lo == vel_ignore_lo,
            r.vel_ignore_hi == vel_ignore_hi,
            r.carry_ppm == 0,
            r.time_micros == 0,
    {
        RenderMachine {
            status: MIDIRendererStatus::Idle,
            phase: RenderPhase::Receiving,
            allow: true,
            sample_rate,
            audio_channels,
            vel_ignore_lo,
            vel_ignore_hi,
            carry_ppm: 0,
            time_micros: 0,
        }
    }

    /// Marks the job running; the pool does the same on its container.
    pub fn begin(&mut self)
        requires
            old(self).status is Idle,
        ensures
            *final(self) == (RenderMachine { status: MIDIRendererStatus::Rendering, ..*old(self) }),
    {
        self.status = MIDIRendererStatus::Rendering;
    }

    /// Revokes the job's permission to continue: the next batch is
    /// Stopped, and the writer gate refuses every further block.
    pub fn cancel(&mut self)
        ensures
            *final(self) == spec_cancel(*old(self)),
    {
        self.allow = false;
    }

    /// Handles one decoded batch. A cancelled job renders nothing and
    /// forwards nothing. Otherwise the batch's delta is split against the
    /// slice ceiling with exact carry accounting — no frame is lost or
    /// invented over the whole stream — its events become channel actions,
    /// with ignored-velocity note-ons dropped, and each slice carries the
    /// cumulative stream time at its end, so statistics advance once per
    /// slice, ending at the old time plus the whole delta.
    pub fn on_batch(&mut self, delta_micros: u64, events: &Vec<MidiEvent>) -> (r: BatchStep)
        requires
            old(self).wf(),
            old(self).phase is Receiving,
            old(self).status is Rendering,
            old(self).sample_rate * delta_micros + old(self).carry_ppm <= u64::MAX,
            old(self).time_micros + delta_micros <= u64::MAX,
        ensures
            final(self).wf(),
            !old(self).allow ==> (r is Stopped && *final(self) == *old(self)),
            old(self).allow ==> (r matches BatchStep::Proceed {
                slices,
                slice_times,
                dispatches,
            } && {
                &&& frames_total(slices@) * MILLION + final(self).carry_ppm == old(self).sample_rate
                    * delta_micros + old(self).carry_ppm
                &&& slices@.len() == slice_count(delta_micros as nat)
                &&& slice_times@.len() == slices@.len()
                &&& forall|i: int|
                    0 <= i < slice_times@.len() ==> #[trigger] slice_times@[i]
                        == old(self).time_micros + (if (i + 1) * MAX_SLICE_MICROS
                            < delta_micros {
                            (i + 1) * (MAX_SLICE_MICROS as int)
                        } else {
                            delta_micros as int
                        })
                &&& dispatches@ == spec_dispatch_all(
                    events@,
                    old(self).vel_ignore_lo,
                    old(self).vel_ignore_hi,
                )
                &&& *final(self) == (RenderMachine {
                    carry_ppm: final(self).carry_ppm,
                    time_micros: (old(self).time_micros + delta_micros) as u64,
                    ..*old(self)
                })
            }),
    {
        if !self.allow {
            return BatchStep::Stopped;
        }
        let (slices, carry) = plan_slices(self.sample_rate, delta_micros, self.carry_ppm);
        let slice_times = cumulative_slice_times(self.time_micros, delta_micros, slices.len());
        self.carry_ppm = carry;
        self.time_micros = self.time_micros + delta_micros;
        let dispatches = dispatch_batch(events, self.vel_ignore_lo, self.vel_ignore_hi);
        BatchStep::Proceed { slices, slice_times, dispatches }
    }

    /// The sample count of one slice's interleaved PCM block: always a
    /// whole number of frames, so a multiple of the channel count.
    pub fn slice_buffer_len(&self, frames: u64) -> (r: u64)
        requires
            self.wf(),
            frames * self.audio_channels <= u64::MAX,
        ensures
            r == frames * self.audio_channels,
            r % (self.audio_channels as u64) == 0,
    {
        let r = frames * (self.audio_channels as u64);
        proof {
            vstd::arithmetic::div_mod::lemma_mod_multiples_basic(
                frames as int,
                self.audio_channels as int,
            );
        }
        r
    }

    /// Ends the receiving phase — the stream closed or the job was
    /// cancelled — and tells every channel to release: all notes off,
    /// then controllers reset.
    pub fn begin_drain(&mut self) -> (r: (SynthBroadcast, SynthBroadcast))
        requires
            old(self).phase is Receiving,
        ensures
            *final(self) == (RenderMachine { phase: RenderPhase::Draining, ..*old(self) }),
            r.0 is AllNotesOff,
            r.1 is ResetControl,
    {
        self.phase = RenderPhase::Draining;
        (SynthBroadcast::AllNotesOff, SynthBroadcast::ResetControl)
    }

    /// The frame count of one drain probe: one second of audio.
    pub fn probe_frames(&self) -> (r: u64)
        ensures
            r == self.sample_rate,
    {
        self.sample_rate as u64
    }

    /// Handles one rendered drain probe: a sounding block is forwarded and
    /// probing continues; the first silent block ends the job, marking it
    /// Finished.
    pub fn on_probe(&mut self, silent: bool) -> (r: DrainStep)
        requires
            old(self).phase is Draining,
        ensures
            *final(self) == spec_on_probe(*old(self), silent),
            r is Stop <==> silent,
            silent ==> final(self).status is Finished && final(self).phase is Done,
    {
        if silent {
            self.status = MIDIRendererStatus::Finished;
            self.phase = RenderPhase::Done;
            DrainStep::Stop
        } else {
            DrainStep::Forward
        }
    }
}

/// The stream time at each slice's end: every full slice advances by the
/// ceiling and the final slice ends exactly at the whole delta, so the
/// per-slice statistics updates are frequent and never drift.
fn cumulative_slice_times(start_micros: u64, delta_micros: u64, n_slices: usize) -> (r: Vec<u64>)
    requires
        start_micros + delta_micros <= u64::MAX,
    ensures
        r@.len() == n_slices,
        forall|i: int|
            0 <= i < n_slices ==> #[trigger] r@[i] == start_micros + (if (i + 1)
                * MAX_SLICE_MICROS < delta_micros {
                (i + 1) * (MAX_SLICE_MICROS as int)
            } else {
                delta_micros as int
            }),
{
    let mut out: Vec<u64> = Vec::new();
    let mut i: usize = 0;
    while i < n_slices
        invariant
            start_micros + delta_micros <= u64::MAX,
            i <= n_slices,
            out@.len() == i,
            forall|j: int|
                0 <= j < i ==> #[trigger] out@[j] == start_micros + (if (j + 1)
                    * MAX_SLICE_MICROS < delta_micros {
                    (j + 1) * (MAX_SLICE_MICROS as int)
                } else {
                    delta_micros as int
                }),
        decreases n_slices - i,
    {
        let quotient = delta_micros / MAX_SLICE_MICROS;
        let full = (i as u64) + 1 <= quotient;
        proof {
            vstd::arithmetic::div_mod::lemma_fundamental_div_mod(
                delta_micros as int,
                MAX_SLICE_MICROS as int,
            );
            let q = delta_micros as int / MAX_SLICE_MICROS as int;
            if full {
                assert((i as int + 1) * MAX_SLICE_MICROS <= q * MAX_SLICE_MICROS)
                    by (nonlinear_arith)
                    requires i as int + 1 <= q;
            } else {
                assert((q + 1) * MAX_SLICE_MICROS <= (i as int + 1) * MAX_SLICE_MICROS)
                    by (nonlinear_arith)
                    requires q + 1 <= i as int + 1;
                assert((q + 1) * MAX_SLICE_MICROS == q * MAX_SLICE_MICROS + MAX_SLICE_MICROS)
                    by (nonlinear_arith);
            }
        }
        let cum: u64 = if full {
            ((i as u64) + 1) * MAX_SLICE_MICROS
        } else {
            delta_micros
        };
        out.push(start_micros + cum);
        i = i + 1;
    }
    out
}

/// Whether the writer thread consumes a block: only while the job is still
/// allowed to run. After a cancellation every arriving block is refused,
/// so no further PCM reaches the encoder.
pub fn writer_accepts(allow: bool) -> (r: bool)
    ensures
        r == allow,
{
    allow
}

/// Law: a finished machine stays finished through any further probes.
proof fn lemma_drain_preserves_finished(m: RenderMachine, probes: Seq<bool>)
    requires
        m.status is Finished,
        m.phase is Done,
    ensures
        run_drain(m, probes).status is Finished,
    decreases probes.len(),
{
    if probes.len() > 0 {
        lemma_drain_preserves_finished(m, probes.drop_first());
    }
}

/// Law: once a job drains — after cancellation or the end of its stream —
/// it finishes as soon as any probe block is silent: if the synthesizer's
/// tail ever decays to silence, `has_finished` eventually holds.
pub proof fn lemma_drain_finishes(m: RenderMachine, probes: Seq<bool>)
    requires
        m.phase is Draining,
        probes.contains(true),
    ensures
        run_drain(m, probes).status is Finished,
    decreases probes.len(),
{
    let i = choose|i: int| 0 <= i < probes.len() && probes[i] == true;
    if probes[0] {
        lemma_drain_preserves_finished(spec_on_probe(m, true), probes.drop_first());
    } else {
        assert(i != 0);
        assert(probes.drop_first()[i - 1] == true);
        assert(probes.drop_first().contains(true));
        lemma_drain_finishes(spec_on_probe(m, false), probes.drop_first());
    }
}

/// Law: cancelling a job closes its PCM path. The cancelled machine keeps
/// no permission, so its next batch step is Stopped and plans no slice,
/// and the writer gate refuses every block; the drain then finishes the
/// job on the first silent probe.
pub proof fn lemma_cancel_quiesces(m: RenderMachine, probes: Seq<bool>)
    requires
        probes.contains(true),
    ensures
        !spec_cancel(m).allow,
        spec_cancel(m).phase is Draining ==> run_drain(spec_cancel(m), probes).status is Finished,
{
    if spec_cancel(m).phase is Draining {
        lemma_drain_finishes(spec_cancel(m), probes);
    }
}

} // verus!
