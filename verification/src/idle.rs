//! How long the user has been away from the keyboard and mouse.
use vstd::prelude::*;

verus! {

/// A reading of the system's idle clock, as each platform offers it.
#[derive(Clone, Copy, Debug, PartialEq, Eq, Structural)]
pub enum IdleSample {
    /// X11 screensaver extension: milliseconds since the last input.
    X11 { ms_since_user_input: u32 },
    /// Windows: the millisecond tick count now and at the last input; the
    /// counter wraps around every 49.7 days.
    TickCounts { now: u32, last_input: u32 },
    /// macOS: whole seconds since the last input event.
    Seconds(u64),
    /// The idle time cannot be determined.
    Unavailable,
}

/// Milliseconds from `last` to `now` on a 32-bit counter that wraps around.
pub open spec fn ticks_between(now: u32, last: u32) -> int {
    if now >= last {
        now - last
    } else {
        now + 0x1_0000_0000 - last
    }
}

/// Whole seconds since the last user input, or `None` when unknown.
pub fn system_idle_secs(sample: IdleSample) -> (r: Option<u64>)
    ensures
        r == match sample {
            IdleSample::X11 { ms_since_user_input } => Some((ms_since_user_input / 1000) as u64),
            IdleSample::TickCounts { now, last_input } => Some((ticks_between(now, last_input) / 1000) as u64),
            IdleSample::Seconds(s) => Some(s),
            IdleSample::Unavailable => None,
        },
{
    match sample {
        IdleSample::X11 { ms_since_user_input } => Some(ms_since_user_input as u64 / 1000),
        IdleSample::TickCounts { now, last_input } => {
            let elapsed: u32 = now.wrapping_sub(last_input);
            Some(elapsed as u64 / 1000)
        },
        IdleSample::Seconds(s) => Some(s),
        IdleSample::Unavailable => None,
    }
}

} // verus!
