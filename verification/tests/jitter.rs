use telepath::common::jitter::{drain, fill_interleaved, feed_samples, new_jitter_buffer, next_sample, playback_capacity, SILENCE};

#[test]
fn capacity_is_half_a_second() {
    assert_eq!(playback_capacity(48000), 24000);
    assert_eq!(playback_capacity(44101), (0.5 * 44101u32 as f64) as usize);
    assert_eq!(playback_capacity(u32::MAX), (0.5 * u32::MAX as f64) as usize);
}

#[test]
fn samples_come_out_in_order_and_overflow_drops() {
    let (mut prod, mut cons) = new_jitter_buffer(2);
    assert_eq!(feed_samples(&mut prod, &[10, 20, 30]), 2);
    assert_eq!(next_sample(&mut cons), 10);
    assert_eq!(next_sample(&mut cons), 20);
    assert_eq!(next_sample(&mut cons), SILENCE);
    assert_eq!(SILENCE, 0.0f32.to_bits());
}

#[test]
fn interleaved_fill_copies_each_sample_to_all_channels() {
    let (mut prod, mut cons) = new_jitter_buffer(16);
    feed_samples(&mut prod, &[1, 2]);
    let out = fill_interleaved(&mut cons, 7, 2);
    assert_eq!(out, vec![1, 1, 2, 2, 0, 0]);
    let out = fill_interleaved(&mut cons, 3, 4);
    assert!(out.is_empty());
}

#[test]
fn drain_empties_up_to_a_limit() {
    let (mut prod, mut cons) = new_jitter_buffer(8);
    feed_samples(&mut prod, &[1, 2, 3, 4, 5]);
    assert_eq!(drain(&mut cons, 2), 2);
    assert_eq!(next_sample(&mut cons), 3);
    assert_eq!(drain(&mut cons, usize::MAX), 2);
    assert_eq!(drain(&mut cons, usize::MAX), 0);
}

#[test]
fn popped_sample_or_silence() {
    assert_eq!(telepath::common::jitter::sample_or_silence(Some(0x3f80_0000)), 0x3f80_0000);
    assert_eq!(telepath::common::jitter::sample_or_silence(None), SILENCE);
}

#[test]
fn interleaved_fill_pops_once_per_frame_in_order() {
    let (mut prod, mut cons) = new_jitter_buffer(16);
    assert_eq!(feed_samples(&mut prod, &[7, 8, 9, 10]), 4);
    let out = fill_interleaved(&mut cons, 9, 3);
    assert_eq!(out, vec![7, 7, 7, 8, 8, 8, 9, 9, 9]);
    assert_eq!(next_sample(&mut cons), 10);
    assert_eq!(next_sample(&mut cons), SILENCE);
}

#[test]
fn feeding_a_full_buffer_takes_nothing_and_drain_stops_at_empty() {
    let (mut prod, mut cons) = new_jitter_buffer(3);
    assert_eq!(feed_samples(&mut prod, &[]), 0);
    assert_eq!(feed_samples(&mut prod, &[1, 2, 3]), 3);
    assert_eq!(feed_samples(&mut prod, &[4, 5]), 0);
    assert_eq!(drain(&mut cons, 0), 0);
    assert_eq!(drain(&mut cons, 10), 3);
    assert_eq!(feed_samples(&mut prod, &[6]), 1);
    assert_eq!(next_sample(&mut cons), 6);
}
