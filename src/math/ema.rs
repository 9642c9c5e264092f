use vstd::prelude::*;

verus! {

/// An exponential moving average with weight 1/10 on each new sample; the
/// first sample (while the average is zero) is taken as it is.
#[derive(Clone, Copy, Debug, Default, PartialEq, Eq, Structural)]
pub struct EMA(pub u64);

/// `(value + 9 * avg) / 10`, or `value` where `avg` is zero.
pub open spec fn ema_next(avg: u64, value: u64) -> int {
    if avg == 0 {
        value as int
    } else {
        (value + 9 * avg) / 10
    }
}

impl EMA {
    pub fn new(value: u64) -> (r: EMA)
        ensures
            r.0 == value,
    {
        EMA(value)
    }

    /// Folds `value` into the average.
    pub fn update(&mut self, value: u64)
        ensures
            final(self).0 == ema_next(old(self).0, value),
    {
        if self.0 == 0 {
            self.0 = value;
        } else {
            let sum = value as u128 + 9 * self.0 as u128;
            self.0 = (sum / 10) as u64;
        }
    }

    pub fn get(&self) -> (r: u64)
        ensures
            r == self.0,
    {
        self.0
    }
}

} // verus!
