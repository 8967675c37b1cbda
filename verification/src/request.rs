//! The decoded request model and the injection plan it translates into.
//!
//! A [`Request`] is one decoded protocol event, already parsed by the external
//! protocol library and converted to plain values (coordinates in global
//! integer units, see [`crate::geometry`]). An [`Injection`] is one call the
//! dispatcher asks the compositor input stack to make; a request translates
//! into zero or more injections, in order. Serial numbers and timestamps are
//! attached by the adapter at injection time, one fresh serial per call and
//! one clock read per request.

use vstd::prelude::*;
use crate::geometry::Point;

verus! {

/// One decoded request from an emulated-input client.
///
/// Coordinates and deltas are in global integer units; the adapter rejects
/// non-finite floating values before building one of these.
#[derive(Clone, Copy, PartialEq, Eq, Structural, Debug)]
pub enum Request {
    /// A keyboard key event; `pressed` is true for press, false for release.
    KeyboardKey { key: u32, pressed: bool },
    /// Relative pointer motion by `(dx, dy)`.
    PointerMotion { dx: i64, dy: i64 },
    /// Absolute pointer motion to `(x, y)`.
    PointerMotionAbsolute { x: i64, y: i64 },
    /// A pointer button event; codes share the evdev space with keycodes.
    Button { button: u32, pressed: bool },
    /// A scroll by `(dx, dy)`.
    ScrollDelta { dx: i64, dy: i64 },
    /// A touch contact starting at `(x, y)` under slot `touch_id`.
    TouchDown { touch_id: u32, x: i64, y: i64 },
    /// A touch contact moving to `(x, y)` under slot `touch_id`.
    TouchMotion { touch_id: u32, x: i64, y: i64 },
    /// A touch contact ending under slot `touch_id`.
    TouchUp { touch_id: u32 },
    /// The active touch sequence is cancelled.
    TouchCancel,
    /// Capability negotiation: the client asks for the capabilities in `mask`.
    Bind { mask: u64 },
    /// The client is going away.
    Disconnect,
    /// Device emulation starting: acknowledged, nothing forwarded.
    DeviceStartEmulating,
    /// Device emulation stopping: acknowledged, nothing forwarded.
    DeviceStopEmulating,
    /// A protocol frame boundary: acknowledged, nothing forwarded.
    Frame,
    /// Any request kind this bridge does not know: ignored, never an error.
    Unknown,
}

/// One call against the compositor input stack.
///
/// For motion and touch events, `output` names the output (by index into the
/// snapshot's output list) under which the compositor should look up the
/// focus target: the first output containing the position, or the seat's
/// active output when none does.
#[derive(Clone, Copy, PartialEq, Eq, Structural, Debug)]
pub enum Injection {
    /// A key event with a fresh serial.
    Key { code: u32, pressed: bool },
    /// Pointer motion to `position`, focus-resolved against `output`.
    PointerMotion { position: Point, output: usize },
    /// A button event with a fresh serial.
    Button { code: u32, pressed: bool },
    /// A scroll axis event; each axis is present only when its delta is
    /// nonzero.
    Axis { horizontal: Option<i64>, vertical: Option<i64> },
    /// A touch-down at `position` under slot `slot`, with a fresh serial.
    TouchDown { slot: u32, position: Point, output: usize },
    /// A touch-motion to `position` under slot `slot`.
    TouchMotion { slot: u32, position: Point, output: usize },
    /// A touch-up under slot `slot`, with a fresh serial.
    TouchUp { slot: u32 },
    /// Cancel of the active touch sequence.
    TouchCancel,
    /// A frame commit, closing the batch opened by the call before it.
    Frame,
}

impl Injection {
    /// Whether this injection moves or presses something through the pointer
    /// or touch path, and so must be followed by a frame commit.
    pub open spec fn needs_frame(self) -> bool {
        match self {
            Injection::PointerMotion { .. } => true,
            Injection::Button { .. } => true,
            Injection::Axis { .. } => true,
            Injection::TouchDown { .. } => true,
            Injection::TouchMotion { .. } => true,
            Injection::TouchUp { .. } => true,
            Injection::TouchCancel => true,
            Injection::Key { .. } => false,
            Injection::Frame => false,
        }
    }
}

} // verus!
