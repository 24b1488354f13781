use forte::settings::{
    ChannelCountDef, OutputAudioFormat, PCMSampleFormat, RenderSettings,
};
use forte::timing::plan_slices;
use forte::writer::{
    get_bitrate, output_filename, pcm_spec_params, plan_writer, split_stereo, vorbis_params,
    LameBitrate, WavSampleKind, WriterKind, COMMON_BITRATES, COMMON_SAMPLE_RATES,
};

#[test]
fn wav_header_fields_follow_format() {
    assert_eq!(pcm_spec_params(PCMSampleFormat::Int16), (16, WavSampleKind::Int));
    assert_eq!(pcm_spec_params(PCMSampleFormat::Float32), (32, WavSampleKind::Float));
}

#[test]
fn vorbis_parameters_are_floored() {
    assert_eq!(vorbis_params(48000, 2), (48000, 2));
    // Mono input still encodes two Vorbis channels.
    assert_eq!(vorbis_params(48000, 1), (48000, 2));
    // The rate never falls below the lowest offered rate.
    assert_eq!(vorbis_params(4000, 2), (8000, 2));
    assert_eq!(COMMON_SAMPLE_RATES[0], 8000);
}

#[test]
fn lame_bitrate_steps() {
    assert_eq!(get_bitrate(64_000), LameBitrate::Kbps64);
    assert_eq!(get_bitrate(80_000), LameBitrate::Kbps80);
    assert_eq!(get_bitrate(96_000), LameBitrate::Kbps96);
    assert_eq!(get_bitrate(128_000), LameBitrate::Kbps128);
    assert_eq!(get_bitrate(160_000), LameBitrate::Kbps160);
    assert_eq!(get_bitrate(192_000), LameBitrate::Kbps192);
    assert_eq!(get_bitrate(256_000), LameBitrate::Kbps256);
    assert_eq!(get_bitrate(320_000), LameBitrate::Kbps320);
    // Anything the encoder does not offer falls back to 192 kbps.
    assert_eq!(get_bitrate(123_456), LameBitrate::Kbps192);
    assert_eq!(COMMON_BITRATES.len(), 8);
}

#[test]
fn extension_follows_format() {
    let pcm = OutputAudioFormat::Pcm { format: PCMSampleFormat::Int16 };
    let ogg = OutputAudioFormat::Vorbis { bitrate: 128_000 };
    let mp3 = OutputAudioFormat::Lame { bitrate: 192_000 };
    assert_eq!(output_filename("song.mid".to_string(), pcm), "song.wav");
    assert_eq!(output_filename("song.mid".to_string(), ogg), "song.ogg");
    assert_eq!(output_filename("song.mid".to_string(), mp3), "song.mp3");
}

#[test]
fn output_name_keeps_the_stem() {
    let pcm = OutputAudioFormat::Pcm { format: PCMSampleFormat::Int16 };
    // No extension: the whole name is the stem.
    assert_eq!(output_filename("song".to_string(), pcm), "song.wav");
    // Only the last extension is replaced.
    assert_eq!(output_filename("set.a.mid".to_string(), pcm), "set.a.wav");
    // A leading dot starts no extension.
    assert_eq!(output_filename(".hidden".to_string(), pcm), ".hidden.wav");
    assert_eq!(output_filename(".hidden.mid".to_string(), pcm), ".hidden.wav");
}

#[test]
fn split_stereo_deinterleaves() {
    let block = [1i32, -1, 2, -2, 3, -3];
    let (left, right) = split_stereo(&block);
    assert_eq!(left, vec![1, 2, 3]);
    assert_eq!(right, vec![-1, -2, -3]);

    let samples = [0.5f32, -0.5, 0.25, -0.25];
    let (left, right) = split_stereo(&samples);
    assert_eq!(left, vec![0.5, 0.25]);
    assert_eq!(right, vec![-0.5, -0.25]);

    // An odd tail lands on the left signal.
    let odd = [7u8, 8, 9];
    let (left, right) = split_stereo(&odd);
    assert_eq!(left, vec![7, 9]);
    assert_eq!(right, vec![8]);
}

#[test]
fn single_note_mono_wav_plan() {
    // One 4-bar file (8 s at 120 bpm), Standard mode, mono 16-bit PCM at
    // 48 kHz, limiter disabled: the writer plan reports one channel,
    // 48 kHz, 16-bit integer samples and a .wav name, and the slice plan
    // accounts for exactly 8 s of frames.
    let mut settings = RenderSettings::default();
    settings.audio_channels = ChannelCountDef::Mono;
    settings.audio_format = OutputAudioFormat::Pcm { format: PCMSampleFormat::Int16 };
    settings.dsp_settings.limiter.enabled = false;

    let plan = plan_writer(&settings, "four_bars.mid".to_string());
    assert_eq!(plan.channels, 1);
    assert_eq!(plan.sample_rate, 48000);
    assert_eq!(plan.kind, WriterKind::Pcm { bits_per_sample: 16, sample_kind: WavSampleKind::Int });
    assert_eq!(plan.filename, "four_bars.wav");

    let dsp = forte::dsp::ForteAudioDSP::new(1, 48000, settings.dsp_settings);
    assert!(dsp.is_passthrough());

    let (slices, carry) = plan_slices(48000, 8_000_000, 0);
    assert_eq!(slices.len(), 80);
    assert_eq!(slices.iter().sum::<u64>(), 8 * 48000);
    assert_eq!(carry, 0);
}
