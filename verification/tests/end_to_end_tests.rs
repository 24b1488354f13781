use std::io::Cursor;

use hound::{SampleFormat, WavReader, WavSpec, WavWriter};
use xsynth_core::channel::{ChannelAudioEvent, ChannelEvent, ChannelInitOptions, VoiceChannel};
use xsynth_core::{AudioPipe, AudioStreamParams, ChannelCount};

use forte::dsp::ForteAudioDSP;
use forte::midi::{dispatch_event, MidiEvent, SynthChannelAction};
use forte::settings::{ChannelCountDef, OutputAudioFormat, PCMSampleFormat, RenderSettings};
use forte::timing::plan_slices;
use forte::writer::{plan_writer, WavSampleKind, WriterKind};

#[test]
fn single_max_velocity_note_to_wav() {
    // One file holding a single max-velocity note over 4 bars (8 s at the
    // default tempo), limiter disabled, Standard mode, mono 16-bit PCM at
    // 48 kHz: the produced stream's header reports one channel, 48 kHz
    // and 16 bits, and its duration matches the computed total duration
    // to within one render slice.
    let mut settings = RenderSettings::default();
    settings.audio_channels = ChannelCountDef::Mono;
    settings.audio_format = OutputAudioFormat::Pcm { format: PCMSampleFormat::Int16 };
    settings.dsp_settings.limiter.enabled = false;

    let plan = plan_writer(&settings, "single_note.mid".to_string());
    let (bits_per_sample, sample_format) = match plan.kind {
        WriterKind::Pcm { bits_per_sample, sample_kind } => (
            bits_per_sample,
            match sample_kind {
                WavSampleKind::Int => SampleFormat::Int,
                WavSampleKind::Float => SampleFormat::Float,
            },
        ),
        _ => panic!("a PCM format must plan a PCM writer"),
    };
    let spec = WavSpec {
        channels: plan.channels,
        sample_rate: plan.sample_rate,
        bits_per_sample,
        sample_format,
    };

    // The limiter-disabled DSP plan is a pass-through: samples reach the
    // writer unchanged.
    let dsp = ForteAudioDSP::new(plan.channels, plan.sample_rate, settings.dsp_settings);
    assert!(dsp.is_passthrough());

    let mut buffer = Cursor::new(Vec::<u8>::new());
    let mut writer = WavWriter::new(&mut buffer, spec).unwrap();

    let params = AudioStreamParams::new(48000, ChannelCount::Mono);
    let mut channel =
        VoiceChannel::new(ChannelInitOptions { fade_out_killing: true }, params, None);

    // The note passes the velocity-ignore filter and reaches the channel.
    let note = MidiEvent::NoteOn { channel: 0, key: 60, velocity: 127 };
    match dispatch_event(&note, settings.vel_ignore_lo, settings.vel_ignore_hi) {
        Some(SynthChannelAction::NoteOn { key, vel, .. }) => {
            channel.push_events_iter(std::iter::once(ChannelEvent::Audio(
                ChannelAudioEvent::NoteOn { key, vel },
            )));
        }
        _ => panic!("a max-velocity note must not be ignored"),
    }

    // 4 bars of 4/4 at 120 bpm: 8 s, rendered slice by slice.
    let (slices, carry) = plan_slices(48000, 8_000_000, 0);
    assert_eq!(carry, 0);
    let mut total_frames: u64 = 0;
    for frames in slices {
        let mut block = vec![0.0f32; frames as usize];
        channel.read_samples(&mut block);
        for s in block {
            writer.write_sample((s * i16::MAX as f32) as i16).unwrap();
        }
        total_frames += frames;
    }
    writer.finalize().unwrap();

    buffer.set_position(0);
    let reader = WavReader::new(buffer).unwrap();
    let header = reader.spec();
    assert_eq!(header.channels, 1);
    assert_eq!(header.sample_rate, 48000);
    assert_eq!(header.bits_per_sample, 16);
    assert_eq!(header.sample_format, SampleFormat::Int);
    // Exactly the computed duration: 8 s of frames, well within one slice.
    assert_eq!(total_frames, 8 * 48000);
    assert_eq!(reader.duration() as u64, total_frames);
}
