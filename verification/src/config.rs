//! Timing settings of the input handling.
use vstd::prelude::*;

verus! {

/// Timing settings; the durations are in milliseconds.
#[derive(Clone, Copy, Debug, PartialEq, Eq, Structural)]
pub struct Config {
    /// How often the device list is rescanned, in units of 100 ns (the step of
    /// UEFI's `SetTimer`). Typical value: 10 s.
    pub refresh_positive_input_device_time: u64,
    /// A key is considered released when no report for it came within this window.
    /// Typical value: 150 ms - 200 ms.
    pub release_timeout: u64,
    /// A press held longer than this becomes a long press, followed by repeats.
    /// Typical value: 500 ms.
    pub long_press_delay: u64,
    /// The longest gap between a release and the next press that still forms a
    /// multi-click. Typical value: 250 ms - 300 ms.
    pub click_window: u64,
}

impl Default for Config {
    fn default() -> (c: Self)
        ensures
            c.refresh_positive_input_device_time == 100_000_000,
            c.release_timeout == 150,
            c.long_press_delay == 500,
            c.click_window == 300,
    {
        Config {
            refresh_positive_input_device_time: 100_000_000,
            release_timeout: 150,
            long_press_delay: 500,
            click_window: 300,
        }
    }
}

} // verus!
