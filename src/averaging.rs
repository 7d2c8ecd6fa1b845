//! The moving average of the latest pressure samples.
use vstd::prelude::*;

use crate::conversion::div_toward_zero;

verus! {

/// The window keeps at most one sample more than this.
pub const AVERAGE_SAMPLES: usize = 8;

/// The sum of a sequence of samples.
pub open spec fn sum_of(s: Seq<i32>) -> int
    decreases s.len(),
{
    if s.len() == 0 {
        0
    } else {
        sum_of(s.drop_last()) + s.last()
    }
}

/// The samples kept after `sample` joins `window`: the oldest one leaves
/// first when the window already holds more than `AVERAGE_SAMPLES`.
pub open spec fn window_after(window: Seq<i32>, sample: i32) -> Seq<i32> {
    if window.len() > AVERAGE_SAMPLES {
        window.drop_first().push(sample)
    } else {
        window.push(sample)
    }
}

/// The latest pressure samples, oldest first.
pub struct PressureWindow {
    samples: Vec<i32>,
}

impl View for PressureWindow {
    type V = Seq<i32>;

    closed spec fn view(&self) -> Seq<i32> {
        self.samples@
    }
}

impl PressureWindow {
    /// The window never holds more than one sample over `AVERAGE_SAMPLES`.
    pub open spec fn valid(&self) -> bool {
        self@.len() <= AVERAGE_SAMPLES + 1
    }

    /// An empty window.
    pub fn new() -> (r: PressureWindow)
        ensures
            r@ == Seq::<i32>::empty(),
            r.valid(),
    {
        PressureWindow { samples: Vec::new() }
    }

    /// How many samples the window holds.
    pub fn len(&self) -> (r: usize)
        ensures
            r == self@.len(),
    {
        self.samples.len()
    }

    /// Adds the newest sample, dropping the oldest first when the window
    /// holds more than `AVERAGE_SAMPLES`.
    pub fn push(&mut self, sample: i32)
        requires
            old(self).valid(),
        ensures
            final(self)@ == window_after(old(self)@, sample),
            final(self).valid(),
    {
        if self.samples.len() > AVERAGE_SAMPLES {
            self.samples.remove(0);
        }
        self.samples.push(sample);
    }

    /// The mean of the samples, truncated toward zero; `None` when the
    /// window is empty.
    pub fn average(&self) -> (r: Option<i32>)
        requires
            self.valid(),
        ensures
            self@.len() == 0 ==> r is None,
            self@.len() > 0 ==> r == Some(div_toward_zero(sum_of(self@), self@.len() as int) as i32),
    {
        let n = self.samples.len();
        if n == 0 {
            return None;
        }
        let mut sum: i64 = 0;
        let mut i: usize = 0;
        while i < n
            invariant
                n == self@.len(),
                n <= AVERAGE_SAMPLES + 1,
                i <= n,
                sum == sum_of(self@.take(i as int)),
                i * i32::MIN <= sum <= i * i32::MAX,
            decreases n - i,
        {
            proof {
                assert(self@.take(i as int + 1).drop_last() == self@.take(i as int));
            }
            sum = sum + self.samples[i] as i64;
            i = i + 1;
        }
        proof {
            assert(self@.take(n as int) == self@);
        }
        let mean: i64 = sum / n as i64;
        proof {
            let s = sum as int;
            let d = n as int;
            if s >= 0 {
                assert(s / d <= 0x7fff_ffff) by (nonlinear_arith)
                    requires
                        0 <= s <= d * 0x7fff_ffff,
                        1 <= d,
                ;
            } else {
                assert((-s) / d <= 0x8000_0000) by (nonlinear_arith)
                    requires
                        0 <= -s <= d * 0x8000_0000,
                        1 <= d,
                ;
            }
        }
        Some(mean as i32)
    }
}

} // verus!
