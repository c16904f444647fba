//! Wake-up detection.
use vstd::prelude::*;
use crate::register::{DataRate, Duration, Threshold};

verus! {

/// How long the device stays inactive before sleeping, in sample periods.
#[derive(Clone, Copy, Debug, PartialEq, Eq, Structural)]
pub struct SleepDuration(u8);

impl SleepDuration {
    /// The raw register value.
    pub closed spec fn spec_raw(self) -> u8 {
        self.0
    }

    pub fn raw(self) -> (r: u8)
        ensures
            r == self.spec_raw(),
    {
        self.0
    }

    /// The number of sample periods of `data_rate` in `seconds`; a count above 255 is held
    /// at 255.
    pub fn from_seconds(data_rate: DataRate, seconds: u32) -> (r: SleepDuration)
        ensures
            r.spec_raw() == if data_rate.spec_hz() as int * seconds as int > 255 {
                255int
            } else {
                data_rate.spec_hz() as int * seconds as int
            },
    {
        let hz = data_rate.hz();
        proof {
            assert(hz as int * seconds as int <= u32::MAX as int * u32::MAX as int)
                by (nonlinear_arith);
        }
        let periods: u64 = hz as u64 * seconds as u64;
        if periods > 255 {
            SleepDuration(255)
        } else {
            SleepDuration(periods as u8)
        }
    }
}

#[derive(Clone, Copy, Debug)]
pub struct WakeUp {
    filtered: bool,
    threshold: Threshold,
    wake_duration: Duration,
    sleep_duration: SleepDuration,
}

} // verus!
