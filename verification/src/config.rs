//! Validated configuration for the scheduler: the endpoint and the timing
//! triple. Loading the document from disk and decoding it happen outside this
//! crate; what is checked here is the timing rule itself. In on-time mode the
//! triple is a wall-clock time, so each field keeps its usual bound. In
//! interval mode the triple is a literal duration: minutes or seconds may
//! reach 60 or more, but only while the other two fields are zero, so that
//! "90 seconds" is accepted while "1 h 90 s" is not.

use vstd::prelude::*;

verus! {

/// The timing triple of the configuration document.
#[derive(Clone, Copy, Debug, PartialEq, Eq, Structural)]
pub struct TimeConfig {
    pub h: u32,
    pub m: u32,
    pub s: u32,
}

/// The whole configuration: endpoint, scheduling policy, timing triple.
/// `on_time` true selects the fixed daily time; false the repeating
/// countdown.
pub struct Config {
    pub api: String,
    pub on_time: bool,
    pub time: TimeConfig,
}

/// Why a configuration was rejected: the field that broke its bound, under
/// the policy it was read for.
#[derive(Clone, Copy, Debug, PartialEq, Eq, Structural)]
pub enum ConfigError {
    OnTimeHour,
    OnTimeMinute,
    OnTimeSecond,
    IntervalMinute,
    IntervalSecond,
}

/// The timing rule. On-time: a real wall-clock instant, h below 24 and m, s
/// below 60. Interval: s may pass 60 only when h and m are zero, and m may
/// pass 60 only when h and s are zero.
pub open spec fn valid_timing(on_time: bool, t: TimeConfig) -> bool {
    if on_time {
        t.h < 24 && t.m < 60 && t.s < 60
    } else {
        ((t.h == 0 && t.m == 0) || t.s < 60) && ((t.h == 0 && t.s == 0) || t.m < 60)
    }
}

impl Config {
    /// Check the timing rule, reporting the first field that breaks it:
    /// `Ok` exactly when `valid_timing` holds, and each error names the
    /// earliest offending check in the order hour, minute, second for
    /// on-time mode, and second, minute for interval mode.
    pub fn validate(&self) -> (r: Result<(), ConfigError>)
        ensures
            r is Ok <==> valid_timing(self.on_time, self.time),
            self.on_time && self.time.h >= 24 ==> r == Result::<(), ConfigError>::Err(
                ConfigError::OnTimeHour,
            ),
            self.on_time && self.time.h < 24 && self.time.m >= 60 ==> r == Result::<
                (),
                ConfigError,
            >::Err(ConfigError::OnTimeMinute),
            self.on_time && self.time.h < 24 && self.time.m < 60 && self.time.s >= 60 ==> r
                == Result::<(), ConfigError>::Err(ConfigError::OnTimeSecond),
            !self.on_time && !(self.time.h == 0 && self.time.m == 0) && self.time.s >= 60 ==> r
                == Result::<(), ConfigError>::Err(ConfigError::IntervalSecond),
            !self.on_time && ((self.time.h == 0 && self.time.m == 0) || self.time.s < 60) && !(
            self.time.h == 0 && self.time.s == 0) && self.time.m >= 60 ==> r == Result::<
                (),
                ConfigError,
            >::Err(ConfigError::IntervalMinute),
    {
        if self.on_time {
            if self.time.h >= 24 {
                Err(ConfigError::OnTimeHour)
            } else if self.time.m >= 60 {
                Err(ConfigError::OnTimeMinute)
            } else if self.time.s >= 60 {
                Err(ConfigError::OnTimeSecond)
            } else {
                Ok(())
            }
        } else {
            let h_is_zero = self.time.h == 0;
            let m_is_zero = self.time.m == 0;
            let s_is_zero = self.time.s == 0;
            if !(h_is_zero && m_is_zero) && self.time.s >= 60 {
                Err(ConfigError::IntervalSecond)
            } else if !(h_is_zero && s_is_zero) && self.time.m >= 60 {
                Err(ConfigError::IntervalMinute)
            } else {
                Ok(())
            }
        }
    }
}

} // verus!
