use diploma_thesis::sampling::{GpuSamplingParams, RenderProgress, SamplingParams};

fn sampling(num: u32, max: u32) -> SamplingParams {
    SamplingParams { max_samples_per_pixel: max, num_samples_per_pixel: num, num_bounces: 8 }
}

#[test]
fn default_sampling_params() {
    let s = SamplingParams::default();
    assert_eq!(s.max_samples_per_pixel, 256);
    assert_eq!(s.num_samples_per_pixel, 1);
    assert_eq!(s.num_bounces, 8);
}

#[test]
fn progress_starts_fresh() {
    assert_eq!(RenderProgress::new().accumulated_samples(), 0);
}

#[test]
fn render_progress_round_trip() {
    let s = sampling(4, 16);
    let mut p = RenderProgress::new();

    let f1 = p.next_frame(&s);
    assert_eq!(
        f1,
        GpuSamplingParams {
            num_samples_per_pixel: 4,
            num_bounces: 8,
            accumulated_samples_per_pixel: 4,
            clear_accumulated_samples: 1,
        }
    );
    assert_eq!(p.accumulated_samples(), 4);

    let f2 = p.next_frame(&s);
    assert_eq!(
        f2,
        GpuSamplingParams {
            num_samples_per_pixel: 4,
            num_bounces: 8,
            accumulated_samples_per_pixel: 8,
            clear_accumulated_samples: 0,
        }
    );

    let f3 = p.next_frame(&s);
    assert_eq!(f3.accumulated_samples_per_pixel, 12);
    assert_eq!(p.accumulated_samples(), 12);
    assert!(!p.is_complete(&s));

    let f4 = p.next_frame(&s);
    assert_eq!(f4.accumulated_samples_per_pixel, 16);
    assert_eq!(f4.num_samples_per_pixel, 4);
    assert_eq!(p.accumulated_samples(), 16);
    assert!(p.is_complete(&s));
    assert_eq!(p.accumulated_samples() as f32 / s.max_samples_per_pixel as f32, 1.0);

    let f5 = p.next_frame(&s);
    assert_eq!(
        f5,
        GpuSamplingParams {
            num_samples_per_pixel: 0,
            num_bounces: 8,
            accumulated_samples_per_pixel: 16,
            clear_accumulated_samples: 0,
        }
    );
    assert_eq!(p.accumulated_samples(), 16);
}

#[test]
fn reset_returns_to_a_fresh_image() {
    let s = sampling(4, 16);
    for frames in 0..8 {
        let mut p = RenderProgress::new();
        for _ in 0..frames {
            p.next_frame(&s);
        }
        p.reset();
        assert_eq!(p.accumulated_samples(), 0);
        let next = p.next_frame(&s);
        assert_eq!(next.clear_accumulated_samples, 1);
        assert_eq!(next.num_samples_per_pixel, 4);
        assert_eq!(p.accumulated_samples(), 4);
    }
}

#[test]
fn one_frame_spends_the_whole_budget() {
    let s = sampling(16, 16);
    let mut p = RenderProgress::new();
    let first = p.next_frame(&s);
    assert_eq!(first.clear_accumulated_samples, 1);
    assert_eq!(first.accumulated_samples_per_pixel, 16);
    assert!(p.is_complete(&s));
    let second = p.next_frame(&s);
    assert_eq!(second.num_samples_per_pixel, 0);
    assert_eq!(second.clear_accumulated_samples, 0);
}

#[test]
fn counter_is_frames_times_share_capped_at_the_budget() {
    let s = sampling(3, 12);
    let mut p = RenderProgress::new();
    for frame in 1u32..=10 {
        p.next_frame(&s);
        assert_eq!(p.accumulated_samples(), (frame * 3).min(12));
    }
}

#[test]
fn large_budget_does_not_overflow() {
    let s = sampling(u32::MAX, u32::MAX);
    let mut p = RenderProgress::new();
    let first = p.next_frame(&s);
    assert_eq!(first.accumulated_samples_per_pixel, u32::MAX);
    let second = p.next_frame(&s);
    assert_eq!(second.num_samples_per_pixel, 0);
    assert_eq!(second.accumulated_samples_per_pixel, u32::MAX);
    assert_eq!(p.accumulated_samples(), u32::MAX);
}

#[test]
fn sampling_record_bytes() {
    let record = GpuSamplingParams {
        num_samples_per_pixel: 4,
        num_bounces: 8,
        accumulated_samples_per_pixel: 0x0102_0304,
        clear_accumulated_samples: 1,
    };
    assert_eq!(
        record.to_bytes(),
        vec![4, 0, 0, 0, 8, 0, 0, 0, 4, 3, 2, 1, 1, 0, 0, 0]
    );
}
