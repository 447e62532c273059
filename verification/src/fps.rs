//! The last few frame times, from which a frame rate is averaged.

use std::collections::VecDeque;
use vstd::prelude::*;
use crate::scalar::Scalar;

verus! {

/// The number of frame times that are kept.
pub const MAX_FRAME_TIMES: usize = 8;

/// A window over the most recent frame times, oldest first.
#[derive(Debug)]
pub struct FpsCounter {
    frame_times: VecDeque<Scalar>,
}

impl View for FpsCounter {
    type V = Seq<Scalar>;

    /// The frame times in the window, oldest first.
    closed spec fn view(&self) -> Seq<Scalar> {
        self.frame_times@
    }
}

/// The window after one more frame time: the new time is added at the end,
/// and the oldest is dropped if that makes more than [`MAX_FRAME_TIMES`].
pub open spec fn window_after(window: Seq<Scalar>, dt: Scalar) -> Seq<Scalar> {
    if window.len() + 1 > MAX_FRAME_TIMES {
        window.push(dt).skip(1)
    } else {
        window.push(dt)
    }
}

impl FpsCounter {
    /// An empty window.
    pub fn new() -> (counter: FpsCounter)
        ensures
            counter@ == Seq::<Scalar>::empty(),
    {
        FpsCounter { frame_times: VecDeque::with_capacity(MAX_FRAME_TIMES) }
    }

    /// Records the time that one more frame took.
    pub fn update(&mut self, dt: Scalar)
        ensures
            final(self)@ == window_after(old(self)@, dt),
    {
        self.frame_times.push_back(dt);
        if self.frame_times.len() > MAX_FRAME_TIMES {
            self.frame_times.pop_front();
        }
        assert(self.frame_times@ =~= window_after(old(self)@, dt));
    }

    /// The number of frame times in the window.
    pub fn len(&self) -> (count: usize)
        ensures
            count == self@.len(),
    {
        self.frame_times.len()
    }

    /// The frame times in the window, oldest first.
    pub fn frame_times(&self) -> (times: Vec<Scalar>)
        ensures
            times@ == self@,
    {
        let mut times: Vec<Scalar> = Vec::new();
        let mut i: usize = 0;
        while i < self.frame_times.len()
            invariant
                i <= self.frame_times@.len(),
                times@ == self.frame_times@.take(i as int),
            decreases self.frame_times.len() - i,
        {
            times.push(self.frame_times[i]);
            assert(times@ =~= self.frame_times@.take(i + 1));
            i += 1;
        }
        assert(self.frame_times@.take(i as int) =~= self.frame_times@);
        times
    }
}

/// A window that holds at most [`MAX_FRAME_TIMES`] frame times keeps doing so,
/// and the newest time is always its last.
pub proof fn lemma_window_is_bounded(window: Seq<Scalar>, dt: Scalar)
    requires
        window.len() <= MAX_FRAME_TIMES,
    ensures
        window_after(window, dt).len() <= MAX_FRAME_TIMES,
        window_after(window, dt).len() == if window.len() < MAX_FRAME_TIMES {
            window.len() + 1
        } else {
            MAX_FRAME_TIMES as nat
        },
        window_after(window, dt).last() == dt,
{
}

} // verus!
