//! Render and synthesizer settings: the immutable per-batch snapshot the
//! pipeline works from, and the per-channel unification of global and
//! individual configuration.

use vstd::prelude::*;
use crate::dsp::DSPSettings;
use crate::sf_list::{sf_items_view, duplicate_sf_items, ForteSFListItem, SFItemView};
use crate::tabs::{ForteTab, SynthCfgType};

verus! {

/// The two timing strategies: offline batches, or a simulation of a live
/// renderer's fixed-latency cadence.
#[derive(Clone, Copy, PartialEq, Eq, Structural, Debug)]
pub enum RenderMode {
    Standard,
    RealtimeSimulation,
}

impl Default for RenderMode {
    fn default() -> (r: Self)
        ensures
            r is Standard,
    {
        RenderMode::Standard
    }
}

impl RenderMode {
    /// The mode's position among the selectable modes.
    pub fn index(&self) -> (r: usize)
        ensures
            self is Standard ==> r == 0,
            self is RealtimeSimulation ==> r == 1,
    {
        match self {
            RenderMode::Standard => 0,
            RenderMode::RealtimeSimulation => 1,
        }
    }
}

/// How a synthesizer channel is initialized.
#[derive(Clone, Copy, PartialEq, Eq, Structural, Debug)]
pub struct ChannelInitOptionsDef {
    pub fade_out_killing: bool,
    pub drums_only: bool,
}

impl Default for ChannelInitOptionsDef {
    fn default() -> (r: Self)
        ensures
            r.fade_out_killing,
            !r.drums_only,
    {
        ChannelInitOptionsDef { fade_out_killing: true, drums_only: false }
    }
}

/// The settings of one MIDI channel: init options, an optional voice-layer
/// cap, the ordered soundfont list, and whether the channel renders on a
/// dedicated thread pool.
pub struct SingleChannelSettings {
    pub channel_init_options: ChannelInitOptionsDef,
    pub layer_limit: usize,
    pub layer_limit_enabled: bool,
    pub soundfonts: Vec<ForteSFListItem>,
    pub use_threadpool: bool,
}

/// The mathematical value of one channel's settings.
pub ghost struct ChannelSettingsView {
    pub channel_init_options: ChannelInitOptionsDef,
    pub layer_limit: int,
    pub layer_limit_enabled: bool,
    pub soundfonts: Seq<SFItemView>,
    pub use_threadpool: bool,
}

impl View for SingleChannelSettings {
    type V = ChannelSettingsView;

    open spec fn view(&self) -> ChannelSettingsView {
        ChannelSettingsView {
            channel_init_options: self.channel_init_options,
            layer_limit: self.layer_limit as int,
            layer_limit_enabled: self.layer_limit_enabled,
            soundfonts: sf_items_view(self.soundfonts@),
            use_threadpool: self.use_threadpool,
        }
    }
}

impl SingleChannelSettings {
    /// The voice-layer cap handed to the synthesizer: the configured limit
    /// when it is enabled, otherwise no cap at all.
    pub fn layer_limit_option(&self) -> (r: Option<usize>)
        ensures
            self.layer_limit_enabled ==> r == Some(self.layer_limit),
            !self.layer_limit_enabled ==> r is None,
    {
        if self.layer_limit_enabled {
            Some(self.layer_limit)
        } else {
            None
        }
    }

    /// A field-for-field copy of the settings.
    pub fn duplicate(&self) -> (r: Self)
        ensures
            r@ == self@,
    {
        SingleChannelSettings {
            channel_init_options: self.channel_init_options,
            layer_limit: self.layer_limit,
            layer_limit_enabled: self.layer_limit_enabled,
            soundfonts: duplicate_sf_items(&self.soundfonts),
            use_threadpool: self.use_threadpool,
        }
    }
}

impl Default for SingleChannelSettings {
    fn default() -> (r: Self)
        ensures
            r.channel_init_options.fade_out_killing,
            !r.channel_init_options.drums_only,
            r.layer_limit == 16,
            r.layer_limit_enabled,
            r.soundfonts@.len() == 0,
            r.use_threadpool,
    {
        SingleChannelSettings {
            channel_init_options: ChannelInitOptionsDef { fade_out_killing: true, drums_only: false },
            layer_limit: 16,
            layer_limit_enabled: true,
            soundfonts: Vec::new(),
            use_threadpool: true,
        }
    }
}

/// The synthesizer page's settings: one global channel configuration, one
/// per-channel list, and which of the two each aspect (soundfonts, channel
/// options) draws from.
pub struct SynthSettings {
    pub sfcfg_type: SynthCfgType,
    pub chcfg_type: SynthCfgType,
    pub global_settings: SingleChannelSettings,
    pub individual_settings: Vec<SingleChannelSettings>,
}

impl SynthSettings {
    /// What channel `i`'s effective settings are: the channel options come
    /// from the global or the individual configuration as `chcfg_type`
    /// says, and the soundfont list likewise as `sfcfg_type` says.
    pub open spec fn unified_channel(&self, i: int) -> ChannelSettingsView {
        let base = if self.chcfg_type is Global {
            self.global_settings@
        } else {
            self.individual_settings@[i]@
        };
        let sfs = if self.sfcfg_type is Global {
            self.global_settings@.soundfonts
        } else {
            self.individual_settings@[i]@.soundfonts
        };
        ChannelSettingsView { soundfonts: sfs, ..base }
    }

    /// Resolves the global/per-channel split into one effective settings
    /// value per MIDI channel, sixteen in all.
    pub fn unify(&self) -> (r: Vec<SingleChannelSettings>)
        requires
            self.individual_settings@.len() >= 16,
        ensures
            r@.len() == 16,
            forall|i: int| 0 <= i < 16 ==> #[trigger] r@[i]@ == self.unified_channel(i),
    {
        let mut vec: Vec<SingleChannelSettings> = Vec::new();
        let mut i: usize = 0;
        while i < 16
            invariant
                self.individual_settings@.len() >= 16,
                i <= 16,
                vec@.len() == i,
                forall|j: int| 0 <= j < i ==> #[trigger] vec@[j]@ == self.unified_channel(j),
            decreases 16 - i,
        {
            let mut c = match self.chcfg_type {
                SynthCfgType::Global => self.global_settings.duplicate(),
                SynthCfgType::PerChannel => self.individual_settings[i].duplicate(),
            };
            c.soundfonts = match self.sfcfg_type {
                SynthCfgType::Global => duplicate_sf_items(&self.global_settings.soundfonts),
                SynthCfgType::PerChannel => duplicate_sf_items(&self.individual_settings[i].soundfonts),
            };
            vec.push(c);
            i = i + 1;
        }
        vec
    }
}

impl Default for SynthSettings {
    fn default() -> (r: Self)
        ensures
            r.sfcfg_type is Global,
            r.chcfg_type is Global,
            r.individual_settings@.len() == 16,
    {
        let mut individual: Vec<SingleChannelSettings> = Vec::new();
        let mut i: usize = 0;
        while i < 16
            invariant
                i <= 16,
                individual@.len() == i,
            decreases 16 - i,
        {
            individual.push(SingleChannelSettings::default());
            i = i + 1;
        }
        SynthSettings {
            sfcfg_type: SynthCfgType::Global,
            chcfg_type: SynthCfgType::Global,
            global_settings: SingleChannelSettings::default(),
            individual_settings: individual,
        }
    }
}

/// Mono or stereo output.
#[derive(Clone, Copy, PartialEq, Eq, Structural, Debug)]
pub enum ChannelCountDef {
    Mono,
    Stereo,
}

impl ChannelCountDef {
    /// The number of interleaved audio channels.
    pub fn count(&self) -> (r: u16)
        ensures
            self is Mono ==> r == 1,
            self is Stereo ==> r == 2,
            1 <= r <= 2,
    {
        match self {
            ChannelCountDef::Mono => 1,
            ChannelCountDef::Stereo => 2,
        }
    }
}

/// The PCM sample encodings the WAV writer offers.
#[derive(Clone, Copy, PartialEq, Eq, Structural, Debug)]
pub enum PCMSampleFormat {
    Int16,
    Float32,
}

/// The output bitstream: PCM/WAV in a chosen sample format, or Vorbis or
/// MP3 at a chosen bitrate.
#[derive(Clone, Copy, PartialEq, Eq, Structural, Debug)]
pub enum OutputAudioFormat {
    Pcm { format: PCMSampleFormat },
    Vorbis { bitrate: u32 },
    Lame { bitrate: u32 },
}

/// The immutable per-batch render settings. Velocities inside the ignore
/// range (inclusive on both ends) drop their note-on events; the realtime
/// buffer latency is measured in microseconds.
pub struct RenderSettings {
    pub sample_rate: u32,
    pub audio_channels: ChannelCountDef,
    pub dsp_settings: DSPSettings,
    pub render_mode: RenderMode,
    pub vel_ignore_lo: u8,
    pub vel_ignore_hi: u8,
    pub realtime_buffer_micros: u64,
    pub parallel_midis: usize,
    pub output_dir: Option<String>,
    pub audio_format: OutputAudioFormat,
}

impl RenderSettings {
    /// How many frames the realtime-simulation renderer produces per
    /// window: the configured buffer latency converted to frames.
    pub fn realtime_render_size(&self) -> (r: u64)
        requires
            self.sample_rate * self.realtime_buffer_micros <= u64::MAX,
        ensures
            r == self.sample_rate * self.realtime_buffer_micros / 1_000_000,
    {
        self.sample_rate as u64 * self.realtime_buffer_micros / 1_000_000
    }
}

impl Default for RenderSettings {
    fn default() -> (r: Self)
        ensures
            r.sample_rate == 48000,
            r.audio_channels is Stereo,
            r.render_mode is Standard,
            r.vel_ignore_lo == 0 && r.vel_ignore_hi == 0,
            r.realtime_buffer_micros == 16_667,
            r.parallel_midis == 1,
            r.output_dir is None,
            r.audio_format == (OutputAudioFormat::Pcm { format: PCMSampleFormat::Float32 }),
    {
        RenderSettings {
            sample_rate: 48000,
            audio_channels: ChannelCountDef::Stereo,
            dsp_settings: DSPSettings::default(),
            render_mode: RenderMode::Standard,
            vel_ignore_lo: 0,
            vel_ignore_hi: 0,
            realtime_buffer_micros: 16_667,
            parallel_midis: 1,
            output_dir: None,
            audio_format: OutputAudioFormat::Pcm { format: PCMSampleFormat::Float32 },
        }
    }
}

/// What the interface currently shows; carried in the persisted state.
pub struct UiState {
    pub tab: ForteTab,
    pub rendering: bool,
    pub render_settings_visible: bool,
    pub midi_select_last_path: Option<String>,
    pub output_select_last_path: Option<String>,
    pub sf_select_last_path: Option<String>,
}

impl Default for UiState {
    fn default() -> (r: Self)
        ensures
            r.tab is Synth,
            !r.rendering,
            !r.render_settings_visible,
            r.midi_select_last_path is None,
            r.output_select_last_path is None,
            r.sf_select_last_path is None,
    {
        UiState {
            tab: ForteTab::Synth,
            rendering: false,
            render_settings_visible: false,
            midi_select_last_path: None,
            output_select_last_path: None,
            sf_select_last_path: None,
        }
    }
}

/// The whole persisted application state.
pub struct ForteState {
    pub synth_settings: SynthSettings,
    pub render_settings: RenderSettings,
    pub ui_state: UiState,
}

impl Default for ForteState {
    fn default() -> (r: Self)
        ensures
            r.synth_settings.individual_settings@.len() == 16,
            r.render_settings.sample_rate == 48000,
    {
        ForteState {
            synth_settings: SynthSettings::default(),
            render_settings: RenderSettings::default(),
            ui_state: UiState::default(),
        }
    }
}

} // verus!
