use vstd::prelude::*;

verus! {

/// Event type code of a synchronization marker in the Linux input protocol.
pub const EV_SYN: u16 = 0;

/// Event type code of a key-press-style event in the Linux input protocol.
pub const EV_KEY: u16 = 1;

/// Key code reported while the stylus is within proximity range of the surface.
pub const BTN_TOOL_PEN: u16 = 320;

/// Key code of the stylus tip touching the surface.
pub const BTN_TOUCH: u16 = 330;

/// Key code of the first stylus side button.
pub const BTN_STYLUS: u16 = 331;

/// Key code of the second stylus side button.
pub const BTN_STYLUS2: u16 = 332;

/// Absolute-axis code of the horizontal stylus position.
pub const ABS_X: u16 = 0;

/// Absolute-axis code of the vertical stylus position.
pub const ABS_Y: u16 = 1;

/// Key code of the emulated left mouse button.
pub const BTN_LEFT: u16 = 272;

/// Key code of the emulated right mouse button.
pub const BTN_RIGHT: u16 = 273;

/// Key code of the emulated middle mouse button.
pub const BTN_MIDDLE: u16 = 274;

/// One input event record: an event type, a code within that type, and a
/// value. Timestamps carry no meaning for remapping and are synthesized at
/// the point of emission, so the record does not hold one.
#[derive(Clone, Copy, Debug, PartialEq, Eq, Structural)]
pub struct InputRecord {
    /// Event type (`EV_KEY`, `EV_SYN`, or any other Linux event type).
    pub kind: u16,
    /// Event code, e.g. a key code for `EV_KEY` records.
    pub code: u16,
    /// Event value; for key records 0 means released, nonzero pressed.
    pub value: i32,
}

impl InputRecord {
    /// Build a record from its three fields.
    pub fn new(kind: u16, code: u16, value: i32) -> (r: InputRecord)
        ensures
            r == (InputRecord { kind, code, value }),
    {
        InputRecord { kind, code, value }
    }

    /// A key record carrying a nonzero value reports a press; zero a release.
    pub fn pressed(&self) -> (r: bool)
        ensures
            r == (self.value != 0),
    {
        self.value != 0
    }
}

/// The record that reports a press of the key `code`.
pub open spec fn press_record(code: u16) -> InputRecord {
    InputRecord { kind: EV_KEY, code, value: 1 }
}

/// The record that reports a release of the key `code`.
pub open spec fn release_record(code: u16) -> InputRecord {
    InputRecord { kind: EV_KEY, code, value: 0 }
}

/// Whether `ev` is a key event that presses the key `code`.
pub open spec fn is_key_press(ev: InputRecord, code: u16) -> bool {
    ev.kind == EV_KEY && ev.code == code && ev.value != 0
}

/// Whether `ev` is a key event that releases the key `code`.
pub open spec fn is_key_release(ev: InputRecord, code: u16) -> bool {
    ev.kind == EV_KEY && ev.code == code && ev.value == 0
}

} // verus!
