//! Input validation: per-field range predicates for untrusted event fields.
//!
//! Every bound is carried in a [`Limits`] value so that deployments can widen
//! or narrow them; [`Limits::defaults`] gives the stock configuration.
//! [`Limits::rejection_of`] names the field a request is rejected for, so the
//! caller can log the offending value; a rejected request is dropped whole,
//! never partially injected.

use vstd::prelude::*;
use crate::request::Request;

verus! {

/// Maximum valid evdev keycode (`KEY_MAX` from the kernel's input event codes).
pub const MAX_EVDEV_KEYCODE: u32 = 0x2FF;

/// Maximum touch slot id accepted from a client (generous upper bound; real
/// devices rarely exceed 20 slots).
pub const MAX_TOUCH_ID: u32 = 256;

/// Validation bounds for untrusted event fields.
///
/// Button codes share the evdev code space with keycodes, so the same bound
/// applies to both by default.
#[derive(Clone, Copy, PartialEq, Eq, Structural, Debug)]
pub struct Limits {
    /// Largest keycode accepted in a keyboard event.
    pub max_keycode: u32,
    /// Largest button code accepted in a button event.
    pub max_button: u32,
    /// Largest touch slot id accepted in a touch-down or touch-motion event.
    pub max_touch_id: u32,
}

impl Limits {
    /// The stock configuration: evdev keycode space for keys and buttons,
    /// 256 touch slots.
    pub fn defaults() -> (r: Limits)
        ensures
            r.max_keycode == MAX_EVDEV_KEYCODE,
            r.max_button == MAX_EVDEV_KEYCODE,
            r.max_touch_id == MAX_TOUCH_ID,
    {
        Limits { max_keycode: MAX_EVDEV_KEYCODE, max_button: MAX_EVDEV_KEYCODE, max_touch_id: MAX_TOUCH_ID }
    }

    /// True iff `code` is an acceptable keycode.
    pub fn keycode_in_range(&self, code: u32) -> (r: bool)
        ensures
            r == (code <= self.max_keycode),
    {
        code <= self.max_keycode
    }

    /// True iff `code` is an acceptable button code.
    pub fn button_in_range(&self, code: u32) -> (r: bool)
        ensures
            r == (code <= self.max_button),
    {
        code <= self.max_button
    }

    /// True iff `id` is an acceptable touch slot id.
    pub fn touch_id_in_range(&self, id: u32) -> (r: bool)
        ensures
            r == (id <= self.max_touch_id),
    {
        id <= self.max_touch_id
    }

    /// Classify a request against these bounds: the field it is rejected for,
    /// carrying the offending value, or `None` when every field is in range.
    pub fn rejection_of(&self, req: &Request) -> (r: Option<Rejection>)
        ensures
            r == spec_rejection(*self, *req),
    {
        match *req {
            Request::KeyboardKey { key, .. } => {
                if key > self.max_keycode {
                    Some(Rejection::KeycodeOutOfRange { key })
                } else {
                    None
                }
            },
            Request::Button { button, .. } => {
                if button > self.max_button {
                    Some(Rejection::ButtonOutOfRange { button })
                } else {
                    None
                }
            },
            Request::TouchDown { touch_id, .. } | Request::TouchMotion { touch_id, .. } => {
                if touch_id > self.max_touch_id {
                    Some(Rejection::TouchIdOutOfRange { touch_id })
                } else {
                    None
                }
            },
            _ => None,
        }
    }
}

/// Why a request failed validation, carrying the offending value for the
/// caller's log line.
#[derive(Clone, Copy, PartialEq, Eq, Structural, Debug)]
pub enum Rejection {
    /// A keyboard event carried a keycode above the bound.
    KeycodeOutOfRange { key: u32 },
    /// A button event carried a code above the bound.
    ButtonOutOfRange { button: u32 },
    /// A touch-down or touch-motion carried a slot id above the bound.
    TouchIdOutOfRange { touch_id: u32 },
}

/// The field a request is rejected for under `limits`, if any: keycodes,
/// button codes and touch slot ids are range-checked; every other request
/// kind carries no bounded field.
pub open spec fn spec_rejection(limits: Limits, req: Request) -> Option<Rejection> {
    match req {
        Request::KeyboardKey { key, .. } => {
            if key > limits.max_keycode {
                Some(Rejection::KeycodeOutOfRange { key })
            } else {
                None
            }
        },
        Request::Button { button, .. } => {
            if button > limits.max_button {
                Some(Rejection::ButtonOutOfRange { button })
            } else {
                None
            }
        },
        Request::TouchDown { touch_id, .. } => {
            if touch_id > limits.max_touch_id {
                Some(Rejection::TouchIdOutOfRange { touch_id })
            } else {
                None
            }
        },
        Request::TouchMotion { touch_id, .. } => {
            if touch_id > limits.max_touch_id {
                Some(Rejection::TouchIdOutOfRange { touch_id })
            } else {
                None
            }
        },
        _ => None,
    }
}

} // verus!
