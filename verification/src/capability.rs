//! Capabilities the scan controller consumes from its environment: input
//! injection, screen capture, a millisecond clock and an interrupt peek.
//!
//! The controller never talks to the operating system itself; callers hand it
//! implementations of these traits. Tests drive it with scripted mocks, a
//! real deployment with OS-backed drivers.

use vstd::prelude::*;
use crate::frame::Frame;
use crate::positioning::Rect;

verus! {

/// An input operation failed in the OS backend.
#[derive(Clone, Copy, Debug, PartialEq, Eq, Structural)]
pub struct InputError;

/// A capture operation failed: permission denied, monitor changed, or the
/// requested rectangle could not be grabbed.
#[derive(Clone, Copy, Debug, PartialEq, Eq, Structural)]
pub struct CaptureError;

/// Mouse control. Every operation either succeeds or reports a recoverable
/// I/O error; no retries happen inside the driver.
pub trait InputDriver {
    /// Place the cursor at absolute desktop coordinates.
    fn move_to(&mut self, x: i32, y: i32) -> Result<(), InputError>;

    /// Primary-button down-and-up at the current cursor position.
    fn click(&mut self) -> Result<(), InputError>;

    /// Send `ticks` wheel notches. `fast_hint` is advisory: platforms with
    /// distinct fast/slow scroll paths may honor it, others ignore it.
    fn scroll(&mut self, ticks: i32, fast_hint: bool) -> Result<(), InputError>;
}

/// Screen capture. A successful capture of `rect` is a tightly packed RGB
/// raster of exactly `rect.width` by `rect.height` pixels; this shape
/// guarantee is the documented contract of every capture backend.
pub trait Capturer {
    fn capture(&mut self, rect: Rect) -> (r: Result<Frame, CaptureError>)
        requires
            rect.abs_wf(),
            rect.width >= 1,
            rect.height >= 1,
        ensures
            (r matches Ok(f) ==> f.wf() && f.width as int == rect.width as int && f.height as int
                == rect.height as int),
    ;
}

/// A millisecond clock, also able to block the calling thread.
pub trait Clock {
    /// Milliseconds since some fixed point in the past.
    fn now_ms(&mut self) -> u64;

    /// Block for about `ms` milliseconds.
    fn sleep_ms(&mut self, ms: u64);
}

/// A cheap peek at OS input state: is the right mouse button held down?
/// The scan treats a pressed right button as a cooperative cancel request.
pub trait InterruptSource {
    fn is_rmb_down(&mut self) -> bool;
}

} // verus!
