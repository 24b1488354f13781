//! Dynamics-processing configuration: the lookahead limiter's settings and
//! the per-channel processing plan built from them.

use vstd::prelude::*;

verus! {

/// Lookahead limiter settings: whether it runs, and its attack and release
/// times in milliseconds.
#[derive(Clone, Copy, PartialEq, Eq, Structural, Debug)]
pub struct DSPLimiterSettings {
    pub enabled: bool,
    pub attack_ms: u16,
    pub release_ms: u16,
}

impl Default for DSPLimiterSettings {
    fn default() -> (r: Self)
        ensures
            r.enabled,
            r.attack_ms == 30,
            r.release_ms == 80,
    {
        DSPLimiterSettings { enabled: true, attack_ms: 30, release_ms: 80 }
    }
}

/// All DSP settings; the limiter is the only stage.
#[derive(Clone, Copy, PartialEq, Eq, Structural, Debug)]
pub struct DSPSettings {
    pub limiter: DSPLimiterSettings,
}

impl Default for DSPSettings {
    fn default() -> (r: Self)
        ensures
            r.limiter.enabled,
            r.limiter.attack_ms == 30,
            r.limiter.release_ms == 80,
    {
        DSPSettings { limiter: DSPLimiterSettings::default() }
    }
}

/// The DSP plan ahead of a writer: when the limiter is enabled, one limiter
/// instance per interleaved audio channel; when disabled, no stage at all,
/// and the written samples are exactly the rendered samples.
pub struct ForteAudioDSP {
    pub channels: u16,
    pub limiter: Option<Vec<DSPLimiterSettings>>,
}

impl ForteAudioDSP {
    /// Builds the plan: a limiter per channel exactly when the settings
    /// enable one; disabled settings yield a pass-through plan.
    pub fn new(channels: u16, _sample_rate: u32, settings: DSPSettings) -> (r: Self)
        ensures
            r.channels == channels,
            settings.limiter.enabled ==> (r.limiter matches Some(v) && v@.len() == channels
                && forall|i: int| 0 <= i < v@.len() ==> v@[i] == settings.limiter),
            !settings.limiter.enabled ==> r.limiter is None,
    {
        let limiter = if settings.limiter.enabled {
            let mut v: Vec<DSPLimiterSettings> = Vec::new();
            let mut i: u16 = 0;
            while i < channels
                invariant
                    i <= channels,
                    v@.len() == i,
                    forall|j: int| 0 <= j < i ==> v@[j] == settings.limiter,
                decreases channels - i,
            {
                v.push(settings.limiter);
                i = i + 1;
            }
            Some(v)
        } else {
            None
        };

        ForteAudioDSP { channels, limiter }
    }

    /// Whether the plan changes the signal at all: with no limiter the
    /// writer receives the renderer's samples unchanged.
    pub fn is_passthrough(&self) -> (r: bool)
        ensures
            r == (self.limiter is None),
    {
        self.limiter.is_none()
    }
}

} // verus!
