use forte::timing::plan_slices;

fn total_frames(plan: &[u64]) -> u64 {
    plan.iter().copied().sum()
}

#[test]
fn exact_split_no_carry() {
    // 250 ms at 48 kHz: three slices (100 + 100 + 50 ms), 12000 frames.
    let (plan, carry) = plan_slices(48000, 250_000, 0);
    assert_eq!(plan, vec![4800, 4800, 2400]);
    assert_eq!(carry, 0);
    assert_eq!(total_frames(&plan), 12_000);
}

#[test]
fn slice_count_is_ceiling() {
    let (plan, _) = plan_slices(48000, 100_000, 0);
    assert_eq!(plan.len(), 1);
    let (plan, _) = plan_slices(48000, 100_001, 0);
    assert_eq!(plan.len(), 2);
    let (plan, _) = plan_slices(48000, 1_000_000, 0);
    assert_eq!(plan.len(), 10);
    let (plan, _) = plan_slices(48000, 999_999, 0);
    assert_eq!(plan.len(), 10);
}

#[test]
fn zero_delta_gives_one_empty_slice() {
    let (plan, carry) = plan_slices(48000, 0, 123);
    assert_eq!(plan, vec![0]);
    assert_eq!(carry, 123);
}

#[test]
fn carry_accounts_for_every_frame() {
    // 44.1 kHz over 333333 us: the exact product is 14699984.53 frames...
    // in millionths: 44100 * 333333 = 14699985300000 ppm-frames.
    let rate: u64 = 44100;
    let delta: u64 = 333_333;
    let (plan, carry) = plan_slices(rate as u32, delta, 0);
    let sum = total_frames(&plan);
    assert_eq!(sum * 1_000_000 + carry, rate * delta);
    assert!(carry < 1_000_000);
    // Within one frame of the rounded exact total.
    let rounded = (rate * delta + 500_000) / 1_000_000;
    assert!(sum.abs_diff(rounded) <= 1);
}

#[test]
fn carry_chains_across_batches() {
    // Odd rate so every slice leaves a fractional remainder; over many
    // batches no drift accumulates.
    let rate: u64 = 44100;
    let mut carry: u64 = 0;
    let mut frames: u64 = 0;
    let deltas = [33_333u64, 150_001, 7, 99_999, 100_000, 250_000];
    for d in deltas {
        let (plan, c) = plan_slices(rate as u32, d, carry);
        frames += total_frames(&plan);
        carry = c;
    }
    let total_time: u64 = deltas.iter().sum();
    assert_eq!(frames * 1_000_000 + carry, rate * total_time);
}

#[test]
fn slices_stay_under_ceiling_budget() {
    let (plan, _) = plan_slices(384_000, 1_234_567, 999_999);
    for f in plan {
        // One slice never holds more than the ceiling's frames plus the
        // carried fraction's frame.
        assert!(f <= 384_000 / 10 + 1);
    }
}
