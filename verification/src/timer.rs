use vstd::prelude::*;

verus! {

/// The delay between the end of a selection and the capture.
#[derive(Clone, Copy, PartialEq, Eq, Structural, Debug)]
pub enum Timer {
    Zero,
    ThreeSeconds,
    FiveSeconds,
    TenSeconds,
    Custom,
}

/// The pause, in milliseconds, that always separates the two timers of a
/// capture and that stands for a delay of zero.
pub const SHORT_PAUSE_MILLIS: u64 = 100;

impl Timer {
    /// The delay in whole seconds; a custom delay counts as none.
    pub open spec fn seconds(self) -> u64 {
        match self {
            Timer::Zero => 0,
            Timer::ThreeSeconds => 3,
            Timer::FiveSeconds => 5,
            Timer::TenSeconds => 10,
            Timer::Custom => 0,
        }
    }

    /// The delay in whole seconds.
    pub fn set_timer(&self) -> (secs: u64)
        ensures
            secs == self.seconds(),
    {
        match self {
            Timer::Zero => 0,
            Timer::ThreeSeconds => 3,
            Timer::FiveSeconds => 5,
            Timer::TenSeconds => 10,
            _ => 0,
        }
    }

    /// The countdown before a capture starts, in milliseconds: a zero delay
    /// still waits a short pause, the others wait their seconds.
    pub open spec fn countdown(self) -> u64 {
        if self is Zero {
            SHORT_PAUSE_MILLIS
        } else {
            (self.seconds() * 1000) as u64
        }
    }

    /// The countdown before a capture starts, in milliseconds.
    pub fn countdown_millis(&self) -> (ms: u64)
        ensures
            ms == self.countdown(),
    {
        match self {
            Timer::Zero => SHORT_PAUSE_MILLIS,
            _ => self.set_timer() * 1000,
        }
    }
}

/// Every countdown is at least the short pause, except a custom delay,
/// which starts at once; none is longer than ten seconds.
pub proof fn lemma_countdown_bounds(t: Timer)
    ensures
        t != Timer::Custom ==> t.countdown() >= SHORT_PAUSE_MILLIS,
        t == Timer::Custom ==> t.countdown() == 0,
        t.countdown() <= 10_000,
        t == Timer::Zero ==> t.countdown() == 100 && t.seconds() == 0,
        t == Timer::ThreeSeconds ==> t.countdown() == 3000 && t.seconds() == 3,
        t == Timer::FiveSeconds ==> t.countdown() == 5000 && t.seconds() == 5,
        t == Timer::TenSeconds ==> t.countdown() == 10_000 && t.seconds() == 10,
        t == Timer::Custom ==> t.seconds() == 0,
{
}

} // verus!
