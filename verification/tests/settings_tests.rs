use forte::dsp::{DSPLimiterSettings, DSPSettings, ForteAudioDSP};
use forte::errors::{FileLoadError, MIDILoadErrorKind, MIDIRendererError};
use forte::settings::{
    ChannelCountDef, OutputAudioFormat, PCMSampleFormat, RenderSettings, SingleChannelSettings,
    SynthSettings,
};
use forte::sf_list::build_soundfont_item;
use forte::state::Concurrency;
use forte::tabs::SynthCfgType;
use forte::ui::{ErrorMessage, PersistentMessage, SoundfontConfigWindow};

#[test]
fn default_render_settings() {
    let s = RenderSettings::default();
    assert_eq!(s.sample_rate, 48000);
    assert_eq!(s.audio_channels, ChannelCountDef::Stereo);
    assert_eq!(s.audio_channels.count(), 2);
    assert_eq!(ChannelCountDef::Mono.count(), 1);
    assert_eq!(s.parallel_midis, 1);
    assert_eq!((s.vel_ignore_lo, s.vel_ignore_hi), (0, 0));
    assert_eq!(s.audio_format, OutputAudioFormat::Pcm { format: PCMSampleFormat::Float32 });
}

#[test]
fn default_limiter_settings() {
    let d = DSPLimiterSettings::default();
    assert!(d.enabled);
    assert_eq!(d.attack_ms, 30);
    assert_eq!(d.release_ms, 80);
}

#[test]
fn dsp_plan_builds_one_limiter_per_channel() {
    let settings = DSPSettings::default();
    let dsp = ForteAudioDSP::new(2, 48000, settings);
    assert!(!dsp.is_passthrough());
    assert_eq!(dsp.limiter.as_ref().map(|v| v.len()), Some(2));

    let mut off = DSPSettings::default();
    off.limiter.enabled = false;
    let dsp = ForteAudioDSP::new(2, 48000, off);
    assert!(dsp.is_passthrough());
    assert!(dsp.limiter.is_none());
}

#[test]
fn unify_global_settings_cover_all_channels() {
    let mut synth = SynthSettings::default();
    synth.global_settings.layer_limit = 64;
    synth.global_settings.soundfonts = vec![build_soundfont_item(0, "a.sfz".to_string())];
    let unified = synth.unify();
    assert_eq!(unified.len(), 16);
    for ch in &unified {
        assert_eq!(ch.layer_limit, 64);
        assert_eq!(ch.soundfonts.len(), 1);
        assert_eq!(ch.soundfonts[0].path, "a.sfz");
    }
}

#[test]
fn unify_per_channel_settings_are_kept() {
    let mut synth = SynthSettings::default();
    synth.chcfg_type = SynthCfgType::PerChannel;
    synth.sfcfg_type = SynthCfgType::PerChannel;
    synth.individual_settings[9].layer_limit = 5;
    synth.individual_settings[9].soundfonts = vec![build_soundfont_item(1, "drums.sfz".to_string())];
    let unified = synth.unify();
    assert_eq!(unified[9].layer_limit, 5);
    assert_eq!(unified[9].soundfonts[0].path, "drums.sfz");
    assert_eq!(unified[0].layer_limit, 16);
    assert!(unified[0].soundfonts.is_empty());
}

#[test]
fn unify_mixed_config_types() {
    // Channel options per channel, soundfonts global: each channel keeps
    // its own options but sees the global bank list.
    let mut synth = SynthSettings::default();
    synth.chcfg_type = SynthCfgType::PerChannel;
    synth.sfcfg_type = SynthCfgType::Global;
    synth.individual_settings[3].use_threadpool = false;
    synth.global_settings.soundfonts = vec![build_soundfont_item(0, "g.sfz".to_string())];
    let unified = synth.unify();
    assert!(!unified[3].use_threadpool);
    assert_eq!(unified[3].soundfonts[0].path, "g.sfz");
    assert_eq!(unified[5].soundfonts[0].path, "g.sfz");
}

#[test]
fn default_channel_settings() {
    let ch = SingleChannelSettings::default();
    assert_eq!(ch.layer_limit, 16);
    assert!(ch.layer_limit_enabled);
    assert!(ch.use_threadpool);
    assert!(ch.channel_init_options.fade_out_killing);
    assert!(!ch.channel_init_options.drums_only);
}

#[test]
fn layer_limit_only_when_enabled() {
    let mut ch = SingleChannelSettings::default();
    assert_eq!(ch.layer_limit_option(), Some(16));
    ch.layer_limit = 64;
    assert_eq!(ch.layer_limit_option(), Some(64));
    ch.layer_limit_enabled = false;
    assert_eq!(ch.layer_limit_option(), None);
}

#[test]
fn realtime_window_follows_latency() {
    let mut s = RenderSettings::default();
    // The default latency is a sixtieth of a second: 800 frames at 48 kHz.
    assert_eq!(s.realtime_render_size(), 800);
    s.realtime_buffer_micros = 1_000_000;
    assert_eq!(s.realtime_render_size(), 48000);
}

#[test]
fn concurrency_policy_mapping() {
    assert!(!Concurrency::Sequential.items_parallel());
    assert!(Concurrency::ParallelItems.items_parallel());
    assert!(!Concurrency::ParallelItems.tracks_parallel());
    assert!(Concurrency::ParallelTracks.tracks_parallel());
    assert!(Concurrency::Both.items_parallel() && Concurrency::Both.tracks_parallel());
    assert_eq!(Concurrency::Both.index(), 3);
}

#[test]
fn error_messages_render() {
    assert_eq!(FileLoadError::InvalidFormat.message(), "Invalid File Format");
    assert_eq!(FileLoadError::FileNotFound.message(), "File Not Found");
    assert_eq!(
        FileLoadError::Corrupt("bad header".to_string()).message(),
        "File Corrupt: bad header"
    );
    assert_eq!(
        MIDIRendererError::Load(MIDILoadErrorKind::CorruptChunks).message(),
        "MIDI Load Error: Corrupt Chunks"
    );
    assert_eq!(
        MIDIRendererError::Load(MIDILoadErrorKind::FileTooBig).message(),
        "MIDI Load Error: File Too Big"
    );
    assert_eq!(
        MIDIRendererError::Load(MIDILoadErrorKind::FilesystemError("denied".to_string())).message(),
        "MIDI Load Error: Filesystem Error: denied"
    );
    assert_eq!(
        MIDIRendererError::Renderer("stall".to_string()).message(),
        "Renderer Error: stall"
    );
    assert_eq!(MIDIRendererError::Writer("oops".to_string()).message(), "Writer Error: oops");
}

#[test]
fn message_windows_start_visible() {
    let mut e = ErrorMessage::new("Error".to_string(), "body".to_string());
    assert!(e.is_visible());
    e.dismiss();
    assert!(!e.is_visible());

    let p = PersistentMessage::error("t".to_string(), "b".to_string());
    assert!(p.is_visible());
    let mut u = PersistentMessage::update("1.2".to_string(), "url".to_string(), "b".to_string());
    assert!(u.is_visible());
    u.dismiss();
    assert!(!u.is_visible());

    let w = SoundfontConfigWindow::new(17);
    assert!(w.visible);
    assert_eq!(w.id(), 17);
}
