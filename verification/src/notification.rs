//! What a notification says, and for how long it is shown.

use vstd::prelude::*;

verus! {

/// A notification for the desktop to show: its headline, the minutes until the
/// next one, and the seconds it stays on screen.
#[derive(Debug, Clone, PartialEq, Eq)]
pub struct Notification {
    pub prompt: String,
    pub next_toast_in: u32,
    pub toast_duration: u32,
}

/// The two lengths of time for which a toast can be shown where the desktop
/// offers no free choice.
#[derive(Debug, Clone, Copy, PartialEq, Eq, Structural)]
pub enum ToastDuration {
    /// Seven seconds.
    Short,
    /// Twenty-five seconds.
    Long,
}

/// The seconds a short toast is shown.
pub const SHORT_TOAST_SECS: u32 = 7;

/// The seconds a long toast is shown.
pub const LONG_TOAST_SECS: u32 = 25;

/// The toast length nearer to `sec`; halfway between the two it is the long
/// one.
pub open spec fn nearest_toast_duration(sec: int) -> ToastDuration {
    if sec - SHORT_TOAST_SECS < LONG_TOAST_SECS - sec {
        ToastDuration::Short
    } else {
        ToastDuration::Long
    }
}

/// Picks the toast length nearer to `sec` seconds, for a number of seconds
/// from the short length to the long one.
pub fn sec_to_duration(sec: u32) -> (duration: ToastDuration)
    requires
        SHORT_TOAST_SECS <= sec <= LONG_TOAST_SECS,
    ensures
        duration == nearest_toast_duration(sec as int),
        duration == ToastDuration::Short <==> sec < 16,
{
    if sec == SHORT_TOAST_SECS {
        ToastDuration::Short
    } else if sec == LONG_TOAST_SECS {
        ToastDuration::Long
    } else if LONG_TOAST_SECS - sec > sec - SHORT_TOAST_SECS {
        ToastDuration::Short
    } else {
        ToastDuration::Long
    }
}

/// The milliseconds in `toast_duration` seconds, where they fit in 32 bits.
pub fn toast_timeout_millis(toast_duration: u32) -> (millis: u32)
    requires
        toast_duration * 1000 <= u32::MAX,
    ensures
        millis == toast_duration * 1000,
{
    toast_duration * 1000
}

} // verus!
