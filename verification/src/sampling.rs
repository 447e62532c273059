//! Sample accumulation across frames.
//!
//! The image is refined over many frames. Each frame adds
//! `num_samples_per_pixel` samples to every pixel until
//! `max_samples_per_pixel` have been accumulated; from then on the kernel is
//! told to take no more. [`RenderProgress`] is the counter behind this, and
//! [`GpuSamplingParams`] is what the kernel is handed each frame.

use vstd::prelude::*;
use crate::wire::{le_bytes, words_to_bytes};

verus! {

/// The sampling budget: the total per pixel, the share of one frame, and the
/// number of bounces that a path may take.
#[derive(Clone, Copy, Debug, PartialEq, Eq, Structural)]
pub struct SamplingParams {
    pub max_samples_per_pixel: u32,
    pub num_samples_per_pixel: u32,
    pub num_bounces: u32,
}

impl SamplingParams {
    /// A usable budget: every field is positive and the total is a whole
    /// number of frames.
    pub open spec fn well_formed(self) -> bool {
        &&& self.max_samples_per_pixel > 0
        &&& self.num_samples_per_pixel > 0
        &&& self.num_bounces > 0
        &&& self.max_samples_per_pixel % self.num_samples_per_pixel == 0
    }

    /// The number of frames after which the budget is spent.
    pub open spec fn frames_to_complete(self) -> int {
        self.max_samples_per_pixel as int / self.num_samples_per_pixel as int
    }
}

impl Default for SamplingParams {
    fn default() -> (s: SamplingParams)
        ensures
            s.max_samples_per_pixel == 256,
            s.num_samples_per_pixel == 1,
            s.num_bounces == 8,
    {
        SamplingParams { max_samples_per_pixel: 256, num_samples_per_pixel: 1, num_bounces: 8 }
    }
}

/// The sampling record of one frame, as the kernel reads it: four words.
#[derive(Clone, Copy, Debug, PartialEq, Eq, Structural)]
pub struct GpuSamplingParams {
    /// Samples to take per pixel in this frame; 0 once the budget is spent.
    pub num_samples_per_pixel: u32,
    pub num_bounces: u32,
    /// Samples per pixel that the image holds once this frame is drawn.
    pub accumulated_samples_per_pixel: u32,
    /// 1 when the kernel must zero the image before it adds samples, else 0.
    pub clear_accumulated_samples: u32,
}

/// Size of [`GpuSamplingParams`] in a buffer.
pub const GPU_SAMPLING_PARAMS_BYTES: u64 = 16;

impl GpuSamplingParams {
    /// The record as words, in field order.
    pub open spec fn words(self) -> Seq<u32> {
        seq![
            self.num_samples_per_pixel,
            self.num_bounces,
            self.accumulated_samples_per_pixel,
            self.clear_accumulated_samples,
        ]
    }

    /// The record as it is written to its buffer.
    pub fn to_bytes(&self) -> (bytes: Vec<u8>)
        ensures
            bytes@ == le_bytes(self.words()),
            bytes@.len() == GPU_SAMPLING_PARAMS_BYTES,
    {
        let mut words: Vec<u32> = Vec::new();
        words.push(self.num_samples_per_pixel);
        words.push(self.num_bounces);
        words.push(self.accumulated_samples_per_pixel);
        words.push(self.clear_accumulated_samples);
        assert(words@ =~= self.words());
        words_to_bytes(&words)
    }
}

/// The count that follows `accumulated` when one more frame is drawn.
///
/// A fresh image takes the first share whatever the budget; afterwards a share
/// is added only while it fits into the budget.
pub open spec fn next_accumulated(accumulated: int, sampling: SamplingParams) -> int {
    if accumulated == 0 {
        sampling.num_samples_per_pixel as int
    } else if accumulated + sampling.num_samples_per_pixel <= sampling.max_samples_per_pixel {
        accumulated + sampling.num_samples_per_pixel
    } else {
        accumulated
    }
}

/// The record handed to the kernel for the frame drawn at `accumulated`.
pub open spec fn frame_params(accumulated: int, sampling: SamplingParams) -> GpuSamplingParams {
    if accumulated == 0 {
        GpuSamplingParams {
            num_samples_per_pixel: sampling.num_samples_per_pixel,
            num_bounces: sampling.num_bounces,
            accumulated_samples_per_pixel: sampling.num_samples_per_pixel,
            clear_accumulated_samples: 1,
        }
    } else if accumulated + sampling.num_samples_per_pixel <= sampling.max_samples_per_pixel {
        GpuSamplingParams {
            num_samples_per_pixel: sampling.num_samples_per_pixel,
            num_bounces: sampling.num_bounces,
            accumulated_samples_per_pixel: (accumulated + sampling.num_samples_per_pixel) as u32,
            clear_accumulated_samples: 0,
        }
    } else {
        GpuSamplingParams {
            num_samples_per_pixel: 0,
            num_bounces: sampling.num_bounces,
            accumulated_samples_per_pixel: accumulated as u32,
            clear_accumulated_samples: 0,
        }
    }
}

/// The count after `frames` frames on a fresh image.
pub open spec fn accumulated_after(frames: nat, sampling: SamplingParams) -> int
    decreases frames,
{
    if frames == 0 {
        0
    } else {
        next_accumulated(accumulated_after((frames - 1) as nat, sampling), sampling)
    }
}

/// How many samples per pixel the image holds.
///
/// The counter is 0 for a fresh image (the next frame clears the buffer),
/// grows by one share per frame, and stays put once the budget is reached.
#[derive(Clone, Copy, Debug, PartialEq, Eq, Structural)]
pub struct RenderProgress {
    accumulated_samples_per_pixel: u32,
}

impl View for RenderProgress {
    type V = int;

    /// The number of samples per pixel accumulated so far.
    closed spec fn view(&self) -> int {
        self.accumulated_samples_per_pixel as int
    }
}

impl RenderProgress {
    /// The counter of a fresh image.
    pub fn new() -> (progress: RenderProgress)
        ensures
            progress@ == 0,
    {
        RenderProgress { accumulated_samples_per_pixel: 0 }
    }

    /// Accounts for one more frame and says what the kernel must do in it.
    pub fn next_frame(&mut self, sampling_params: &SamplingParams) -> (params: GpuSamplingParams)
        ensures
            final(self)@ == next_accumulated(old(self)@, *sampling_params),
            params == frame_params(old(self)@, *sampling_params),
    {
        let current: u32 = self.accumulated_samples_per_pixel;
        let next: u64 = sampling_params.num_samples_per_pixel as u64 + current as u64;
        if current == 0 {
            self.accumulated_samples_per_pixel = sampling_params.num_samples_per_pixel;
            GpuSamplingParams {
                num_samples_per_pixel: sampling_params.num_samples_per_pixel,
                num_bounces: sampling_params.num_bounces,
                accumulated_samples_per_pixel: sampling_params.num_samples_per_pixel,
                clear_accumulated_samples: 1,
            }
        } else if next <= sampling_params.max_samples_per_pixel as u64 {
            self.accumulated_samples_per_pixel = next as u32;
            GpuSamplingParams {
                num_samples_per_pixel: sampling_params.num_samples_per_pixel,
                num_bounces: sampling_params.num_bounces,
                accumulated_samples_per_pixel: next as u32,
                clear_accumulated_samples: 0,
            }
        } else {
            GpuSamplingParams {
                num_samples_per_pixel: 0,
                num_bounces: sampling_params.num_bounces,
                accumulated_samples_per_pixel: current,
                clear_accumulated_samples: 0,
            }
        }
    }

    /// Forgets what was accumulated: the next frame starts a fresh image.
    pub fn reset(&mut self)
        ensures
            final(self)@ == 0,
    {
        self.accumulated_samples_per_pixel = 0;
    }

    /// The number of samples per pixel accumulated so far.
    pub fn accumulated_samples(&self) -> (n: u32)
        ensures
            n == self@,
    {
        self.accumulated_samples_per_pixel
    }

    /// Whether the budget of `sampling_params` is spent.
    pub fn is_complete(&self, sampling_params: &SamplingParams) -> (done: bool)
        ensures
            done == (self@ == sampling_params.max_samples_per_pixel),
    {
        self.accumulated_samples_per_pixel == sampling_params.max_samples_per_pixel
    }
}

/// On a fresh image, which is what a new counter and a counter after `reset`
/// stand for, the next frame clears the buffer and takes one share, whatever
/// the budget is and whatever was accumulated before the reset.
pub proof fn lemma_fresh_image_is_cleared(sampling: SamplingParams)
    ensures
        frame_params(0, sampling).clear_accumulated_samples == 1,
        frame_params(0, sampling).num_samples_per_pixel == sampling.num_samples_per_pixel,
        next_accumulated(0, sampling) == sampling.num_samples_per_pixel,
{
}

/// Only a fresh image is cleared: a frame drawn on accumulated samples never
/// asks for it.
pub proof fn lemma_clear_only_when_fresh(accumulated: int, sampling: SamplingParams)
    requires
        0 <= accumulated <= u32::MAX,
    ensures
        frame_params(accumulated, sampling).clear_accumulated_samples == 1 <==> accumulated == 0,
        frame_params(accumulated, sampling).clear_accumulated_samples <= 1,
{
}

/// One frame keeps the counter within the budget and a whole number of
/// shares, never lowers it, and reports the new count to the kernel.
pub proof fn lemma_next_frame_keeps_budget(accumulated: int, sampling: SamplingParams)
    requires
        sampling.well_formed(),
        0 <= accumulated <= sampling.max_samples_per_pixel,
        accumulated % (sampling.num_samples_per_pixel as int) == 0,
    ensures
        accumulated <= next_accumulated(accumulated, sampling) <= sampling.max_samples_per_pixel,
        next_accumulated(accumulated, sampling) % (sampling.num_samples_per_pixel as int) == 0,
        frame_params(accumulated, sampling).accumulated_samples_per_pixel == next_accumulated(
            accumulated,
            sampling,
        ),
        next_accumulated(accumulated, sampling) - accumulated == frame_params(
            accumulated,
            sampling,
        ).num_samples_per_pixel,
{
    let num = sampling.num_samples_per_pixel as int;
    let max = sampling.max_samples_per_pixel as int;
    lemma_multiples_step(accumulated, max, num);
    if accumulated == 0 {
        assert(num % num == 0) by (nonlinear_arith)
            requires
                num > 0,
        ;
    } else if accumulated + num <= max {
        assert((accumulated + num) % num == 0) by (nonlinear_arith)
            requires
                num > 0,
                accumulated % num == 0,
        ;
    }
}

/// Once the budget is spent the counter stays where it is and the kernel is
/// told to take no samples and to clear nothing.
pub proof fn lemma_completed_is_final(sampling: SamplingParams)
    requires
        sampling.well_formed(),
    ensures
        next_accumulated(sampling.max_samples_per_pixel as int, sampling)
            == sampling.max_samples_per_pixel,
        frame_params(sampling.max_samples_per_pixel as int, sampling).num_samples_per_pixel == 0,
        frame_params(sampling.max_samples_per_pixel as int, sampling).clear_accumulated_samples
            == 0,
        frame_params(
            sampling.max_samples_per_pixel as int,
            sampling,
        ).accumulated_samples_per_pixel == sampling.max_samples_per_pixel,
{
}

/// After `frames` frames on a fresh image the counter is `frames` shares, capped
/// at the budget: it reaches the budget after exactly
/// `max_samples_per_pixel / num_samples_per_pixel` frames.
pub proof fn lemma_accumulated_after(frames: nat, sampling: SamplingParams)
    requires
        sampling.well_formed(),
    ensures
        frames <= sampling.frames_to_complete() ==> accumulated_after(frames, sampling) == frames
            * sampling.num_samples_per_pixel,
        frames >= sampling.frames_to_complete() ==> accumulated_after(frames, sampling)
            == sampling.max_samples_per_pixel,
    decreases frames,
{
    let num = sampling.num_samples_per_pixel as int;
    let max = sampling.max_samples_per_pixel as int;
    let total = sampling.frames_to_complete();
    assert(max == total * num && total >= 1) by (nonlinear_arith)
        requires
            max > 0,
            num > 0,
            max % num == 0,
            total == max / num,
    ;
    if frames > 0 {
        let before = (frames - 1) as nat;
        lemma_accumulated_after(before, sampling);
        let acc = accumulated_after(before, sampling);
        if before < total {
            assert(acc == before * num);
            assert(acc + num == frames * num) by (nonlinear_arith)
                requires
                    acc == before * num,
                    frames == before + 1,
            ;
            assert(frames * num <= max) by (nonlinear_arith)
                requires
                    frames <= total,
                    max == total * num,
                    num > 0,
            ;
            assert(before == 0 <==> acc == 0) by (nonlinear_arith)
                requires
                    acc == before * num,
                    num > 0,
                    before >= 0,
            ;
        } else {
            assert(acc == max);
        }
    } else {
        assert(0 * num == 0);
    }
}

/// A count of whole shares below the budget leaves room for one more share.
proof fn lemma_multiples_step(accumulated: int, max: int, num: int)
    requires
        num > 0,
        0 <= accumulated <= max,
        accumulated % num == 0,
        max % num == 0,
    ensures
        accumulated < max ==> accumulated + num <= max,
        num <= max || max == 0,
{
    assert(accumulated < max ==> accumulated + num <= max) by (nonlinear_arith)
        requires
            num > 0,
            0 <= accumulated <= max,
            accumulated % num == 0,
            max % num == 0,
    {
        let a = accumulated / num;
        let m = max / num;
        assert(accumulated == a * num);
        assert(max == m * num);
        if accumulated < max {
            assert(a < m);
            assert((a + 1) * num <= m * num);
            assert((a + 1) * num == a * num + num);
        }
    }
    assert(num <= max || max == 0) by (nonlinear_arith)
        requires
            num > 0,
            0 <= max,
            max % num == 0,
    ;
}

} // verus!
