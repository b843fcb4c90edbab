use loading_system::motion::{
    allocate_segment_pulses, assemble_segments, segment_frequency, magnitude, peak_frequency,
    phase_segment_counts, profile_params, segment_phase, should_use_profile, total_duration_ms, MotionSegment,
};

#[test]
fn test_should_use_profile() {
    assert!(!should_use_profile(400));
    assert!(should_use_profile(500));
    assert!(should_use_profile(32_768));
}

#[test]
fn magnitude_of_extremes() {
    assert_eq!(magnitude(0), 0);
    assert_eq!(magnitude(-5), 5);
    assert_eq!(magnitude(i32::MIN), 2_147_483_648);
    assert!(!should_use_profile(-499));
    assert!(should_use_profile(-32_768));
}

#[test]
fn peak_frequency_floor() {
    assert_eq!(peak_frequency(5000, 200), 5000);
    assert_eq!(peak_frequency(250, 200), 300);
    assert_eq!(peak_frequency(300, 200), 300);
}

#[test]
fn phase_counts_default_profile() {
    // 10 segments with 20% / 20%: 2 accel, 6 cruise, 2 decel
    assert_eq!(phase_segment_counts(10, 2, 2), (2, 6, 2));
    // rounded shares of 0 still give one segment
    assert_eq!(phase_segment_counts(3, 0, 0), (1, 1, 1));
    // nothing left for cruising still gives one cruise segment
    assert_eq!(phase_segment_counts(4, 2, 2), (2, 1, 2));
}

#[test]
fn allocation_conserves_pulses() {
    let shares = vec![100, 300, 500, 500, 300, 100];
    let out = allocate_segment_pulses(1_850, &shares);
    assert_eq!(out, vec![100, 300, 500, 500, 300, 150]);
    assert_eq!(out.iter().map(|&p| p as u64).sum::<u64>(), 1_850);
}

#[test]
fn allocation_raises_zero_share_and_clips() {
    let out = allocate_segment_pulses(10, &vec![0, 8, 8, 1]);
    assert_eq!(out, vec![1, 8, 1, 0]);
    let out = allocate_segment_pulses(7, &vec![3]);
    assert_eq!(out, vec![7]);
}

#[test]
fn segment_phases_in_order() {
    let names: Vec<&str> = (0..6).map(|i| segment_phase(i, 2, 3)).collect();
    assert_eq!(names, vec!["accel", "accel", "cruise", "cruise", "cruise", "decel"]);
}

#[test]
fn assemble_signs_and_frequencies() {
    let freqs: Vec<u32> = [150, 900, 250].iter().map(|&f| segment_frequency(f, 200)).collect();
    assert_eq!(freqs, vec![200, 900, 250]);
    let segs = assemble_segments(-600, 1, 1, &vec![100, 400, 100], &freqs, &vec![520, 464, 520]);
    assert_eq!(segs.len(), 3);
    assert_eq!(segs[0], MotionSegment { pulses: -100, frequency: 200, duration_ms: 520, phase: "accel" });
    assert_eq!(segs[1], MotionSegment { pulses: -400, frequency: 900, duration_ms: 464, phase: "cruise" });
    assert_eq!(segs[2], MotionSegment { pulses: -100, frequency: 250, duration_ms: 520, phase: "decel" });
    assert_eq!(segs.iter().map(|s| s.pulses).sum::<i32>(), -600);
}

#[test]
fn total_duration_sums() {
    let segs = vec![
        MotionSegment { pulses: 1, frequency: 1, duration_ms: 20, phase: "accel" },
        MotionSegment { pulses: 1, frequency: 1, duration_ms: 35, phase: "decel" },
    ];
    assert_eq!(total_duration_ms(&segs), 55);
    assert_eq!(total_duration_ms(&[]), 0);
}

#[test]
fn allocation_every_segment_moves_when_shares_fit() {
    let shares = vec![310, 1500, 3276, 3276, 3276, 3276, 3276, 3276, 1500, 310];
    let total: u32 = 32_768;
    let out = allocate_segment_pulses(total, &shares);
    assert!(out.iter().all(|&p| p >= 1));
    assert_eq!(&out[..9], &shares[..9]);
    assert_eq!(out.iter().map(|&p| p as u64).sum::<u64>(), total as u64);
}

#[test]
fn profile_params_floors() {
    assert_eq!(profile_params(10, 1), (50, 3));
    assert_eq!(profile_params(300, 15), (300, 15));
}
