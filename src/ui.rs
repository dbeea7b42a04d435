use vstd::prelude::*;
use crate::game::MICROS_PER_SECOND;

verus! {

/// Below this many seconds left the timer text grows.
pub const TIMER_WARNING_SECONDS: u64 = 10;

/// How the countdown reads: whole minutes and seconds, whether the seconds
/// take a leading zero, and by how many points the text grows in the last
/// seconds.
#[derive(Clone, Copy, Debug, PartialEq, Eq, Structural)]
pub struct TimerDisplay {
    pub minutes: u64,
    pub seconds: u64,
    pub zero_pad: bool,
    pub font_growth: Option<u64>,
}

/// The countdown display for `time_remaining_us` microseconds left.
pub fn update_time(time_remaining_us: u64) -> (d: TimerDisplay)
    ensures
        ({
            let secs = time_remaining_us as int / MICROS_PER_SECOND as int;
            &&& d.minutes == secs / 60
            &&& d.seconds == secs % 60
            &&& d.zero_pad == (secs % 60 < 10)
            &&& d.font_growth == (if secs < TIMER_WARNING_SECONDS {
                Some(((TIMER_WARNING_SECONDS - secs) * 2) as u64)
            } else {
                None
            })
        }),
{
    let remaining: u64 = time_remaining_us / MICROS_PER_SECOND;
    let seconds: u64 = remaining % 60;
    TimerDisplay {
        minutes: remaining / 60,
        seconds,
        zero_pad: seconds < 10,
        font_growth: if remaining < TIMER_WARNING_SECONDS {
            Some((TIMER_WARNING_SECONDS - remaining) * 2)
        } else {
            None
        },
    }
}

} // verus!
