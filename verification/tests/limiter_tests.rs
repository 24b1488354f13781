use fundsp::prelude::limiter;

use forte::dsp::{DSPSettings, ForteAudioDSP};

// Mirrors the writer thread's DSP stage: one limiter per channel when the
// plan holds one, untouched samples otherwise.
fn apply_plan(plan: &ForteAudioDSP, samples: &mut [f32]) {
    if let Some(per_channel) = &plan.limiter {
        let mut limiters: Vec<_> = per_channel
            .iter()
            .map(|cfg| limiter(cfg.attack_ms as f32 / 1000.0, cfg.release_ms as f32 / 1000.0))
            .collect();
        for (i, s) in samples.iter_mut().enumerate() {
            *s = limiters[i % plan.channels as usize].filter_mono(*s);
        }
    }
}

#[test]
fn limiter_bounds_a_step_beyond_threshold() {
    // A synthetic step of twice the threshold: once the attack phase has
    // elapsed (the lookahead equals the attack time), the limited output
    // no longer exceeds the threshold.
    let settings = DSPSettings::default();
    let plan = ForteAudioDSP::new(1, 44100, settings);
    let attack_samples = 44100 * settings.limiter.attack_ms as usize / 1000;

    let mut block = vec![2.0f32; attack_samples * 8];
    apply_plan(&plan, &mut block);
    for s in block.iter().skip(attack_samples * 2) {
        assert!(s.abs() <= 1.01, "limited sample {} exceeds the threshold", s);
    }
}

#[test]
fn disabled_limiter_passes_samples_through() {
    let mut settings = DSPSettings::default();
    settings.limiter.enabled = false;
    let plan = ForteAudioDSP::new(2, 48000, settings);
    assert!(plan.is_passthrough());

    let input = vec![0.25f32, -0.75, 1.5, -2.0, 0.0, 1.0];
    let mut block = input.clone();
    apply_plan(&plan, &mut block);
    assert_eq!(block, input);
}
