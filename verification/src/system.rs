//! System queries: uptime since process start, and whether the foreground
//! window fills its monitor.

use vstd::prelude::*;

verus! {

/// The time at which the process started, in milliseconds since the epoch.
/// Set once; there is no way to change it.
#[derive(Debug, Clone, Copy, PartialEq, Eq)]
pub struct AppStartTime {
    millis: i64,
}

impl AppStartTime {
    /// The start time as recorded.
    pub closed spec fn value(self) -> i64 {
        self.millis
    }

    /// Records `now_ms` as the start time.
    pub fn new(now_ms: i64) -> (start: AppStartTime)
        ensures
            start.value() == now_ms,
    {
        AppStartTime { millis: now_ms }
    }

    /// The start time as recorded.
    pub fn millis(&self) -> (millis: i64)
        ensures
            millis == self.value(),
    {
        self.millis
    }
}

/// The difference `later - earlier` in 64-bit two's complement: the plain
/// difference wherever it fits.
pub open spec fn wrapped_difference(later: i64, earlier: i64) -> int {
    let d = later - earlier;
    if d > i64::MAX {
        d - 0x1_0000_0000_0000_0000
    } else if d < i64::MIN {
        d + 0x1_0000_0000_0000_0000
    } else {
        d
    }
}

/// The time since process start at `now_ms`, in milliseconds.
pub fn get_app_uptime(start: &AppStartTime, now_ms: i64) -> (uptime: i64)
    ensures
        uptime == wrapped_difference(now_ms, start.value()),
        i64::MIN <= now_ms - start.value() <= i64::MAX ==> uptime == now_ms - start.value(),
{
    let d: i128 = now_ms as i128 - start.millis as i128;
    if d > i64::MAX as i128 {
        (d - 0x1_0000_0000_0000_0000) as i64
    } else if d < i64::MIN as i128 {
        (d + 0x1_0000_0000_0000_0000) as i64
    } else {
        d as i64
    }
}

/// How far the process's token is privileged, on a system with privilege
/// levels.
#[derive(Debug, Clone, Copy, PartialEq, Eq, Structural)]
pub enum PrivilegeLevel {
    NotPrivileged,
    Elevated,
    HighIntegrityAdmin,
}

/// What the platform tells about the rights of the process.
#[derive(Debug, Clone, Copy, PartialEq, Eq, Structural)]
pub enum PrivilegeProbe {
    /// The effective user id, on a system with user ids.
    EffectiveUser(u32),
    /// The privilege level of the process's token; `None` where it could
    /// not be read.
    TokenLevel(Option<PrivilegeLevel>),
    /// The platform tells nothing.
    Unsupported,
}

/// Whether the process runs with administrator rights: as user 0, or with a
/// token that is privileged at all. What cannot be found out counts as no.
pub fn is_admin(probe: PrivilegeProbe) -> (admin: bool)
    ensures
        admin == (match probe {
            PrivilegeProbe::EffectiveUser(id) => id == 0,
            PrivilegeProbe::TokenLevel(Some(level)) => level != PrivilegeLevel::NotPrivileged,
            PrivilegeProbe::TokenLevel(None) => false,
            PrivilegeProbe::Unsupported => false,
        }),
{
    match probe {
        PrivilegeProbe::EffectiveUser(id) => id == 0,
        PrivilegeProbe::TokenLevel(Some(PrivilegeLevel::NotPrivileged)) => false,
        PrivilegeProbe::TokenLevel(Some(_)) => true,
        PrivilegeProbe::TokenLevel(None) => false,
        PrivilegeProbe::Unsupported => false,
    }
}

/// A rectangle on the screen, by its edges.
#[derive(Debug, Clone, Copy, PartialEq, Eq, Structural)]
pub struct ScreenRect {
    pub left: i32,
    pub top: i32,
    pub right: i32,
    pub bottom: i32,
}

impl ScreenRect {
    pub open spec fn width(self) -> int {
        self.right - self.left
    }

    pub open spec fn height(self) -> int {
        self.bottom - self.top
    }
}

/// By how many pixels a full-screen window may miss its monitor's size.
pub const FULLSCREEN_TOLERANCE: i64 = 4;

/// The distance between `a` and `b`.
pub open spec fn distance(a: int, b: int) -> int {
    if a >= b {
        a - b
    } else {
        b - a
    }
}

/// Whether `window` fills `monitor`: it has an area, and neither its width
/// nor its height differs from the monitor's by more than the tolerance.
pub open spec fn fills_monitor(window: ScreenRect, monitor: ScreenRect) -> bool {
    &&& window.width() > 0
    &&& window.height() > 0
    &&& distance(window.width(), monitor.width()) <= FULLSCREEN_TOLERANCE
    &&& distance(window.height(), monitor.height()) <= FULLSCREEN_TOLERANCE
}

fn span(from: i32, to: i32) -> (length: i64)
    ensures
        length == to - from,
{
    to as i64 - from as i64
}

fn close_enough(a: i64, b: i64) -> (close: bool)
    requires
        -0x1_0000_0000 <= a <= 0x1_0000_0000,
        -0x1_0000_0000 <= b <= 0x1_0000_0000,
    ensures
        close == (distance(a as int, b as int) <= FULLSCREEN_TOLERANCE),
{
    if a >= b {
        a - b <= FULLSCREEN_TOLERANCE
    } else {
        b - a <= FULLSCREEN_TOLERANCE
    }
}

/// Decides whether the foreground window runs full screen, from the
/// rectangles of the window and of its monitor. `None` stands for a platform
/// without such a probe, or for a probe that found no window or monitor.
pub fn detect_foreground_fullscreen(probe: Option<(ScreenRect, ScreenRect)>) -> (fullscreen: bool)
    ensures
        fullscreen == (match probe {
            Some((window, monitor)) => fills_monitor(window, monitor),
            None => false,
        }),
{
    match probe {
        Some((window, monitor)) => {
            let window_width = span(window.left, window.right);
            let window_height = span(window.top, window.bottom);
            if window_width <= 0 || window_height <= 0 {
                return false;
            }
            close_enough(window_width, span(monitor.left, monitor.right)) && close_enough(
                window_height,
                span(monitor.top, monitor.bottom),
            )
        },
        None => false,
    }
}

} // verus!
