use vstd::prelude::*;

verus! {

/// The shortest polling interval, in milliseconds, that the applet accepts.
pub const MIN_REFRESH_PERIOD_MILLISECONDS: u64 = 500;

/// The polling interval of a fresh configuration, in milliseconds.
pub const DEFAULT_REFRESH_PERIOD_MILLISECONDS: u64 = 1000;

/// The applet's settings: the display unit and how often the sensors are read.
#[derive(Clone, Debug, PartialEq, Eq, Structural)]
pub struct CPUTempAppletConfig {
    pub fahrenheit: bool,
    pub refresh_period_milliseconds: u64,
}

impl Default for CPUTempAppletConfig {
    fn default() -> (r: Self)
        ensures
            !r.fahrenheit,
            r.refresh_period_milliseconds == DEFAULT_REFRESH_PERIOD_MILLISECONDS,
    {
        CPUTempAppletConfig {
            fahrenheit: false,
            refresh_period_milliseconds: DEFAULT_REFRESH_PERIOD_MILLISECONDS,
        }
    }
}

impl CPUTempAppletConfig {
    /// Takes `period` as the new polling interval when it is at least
    /// `MIN_REFRESH_PERIOD_MILLISECONDS`; otherwise leaves the settings as
    /// they were. Returns whether the interval was taken.
    pub fn set_refresh_period(&mut self, period: u64) -> (accepted: bool)
        ensures
            accepted == (period >= MIN_REFRESH_PERIOD_MILLISECONDS),
            final(self).fahrenheit == old(self).fahrenheit,
            final(self).refresh_period_milliseconds == if accepted {
                period
            } else {
                old(self).refresh_period_milliseconds
            },
    {
        if period >= MIN_REFRESH_PERIOD_MILLISECONDS {
            self.refresh_period_milliseconds = period;
            true
        } else {
            false
        }
    }
}

} // verus!
