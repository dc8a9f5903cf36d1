pub mod idle;
pub mod lmb;
pub mod mmb;
pub mod rmb;

use vstd::prelude::*;

use crate::events::{
    InputRecord, press_record, release_record, is_key_press, is_key_release,
    EV_KEY, ABS_X, ABS_Y, BTN_TOOL_PEN, BTN_TOUCH, BTN_STYLUS, BTN_STYLUS2,
    BTN_LEFT, BTN_MIDDLE, BTN_RIGHT,
};
use crate::state_machine::{State, Transition};
use crate::stylus::idle::Idle;
use crate::stylus::lmb::LMB;
use crate::stylus::mmb::MMB;
use crate::stylus::rmb::RMB;

verus! {

/// The static binding between a mapped mouse button and the records that
/// press and release it. Owned by each button state and never mutated.
#[derive(Clone, Copy, Debug, PartialEq, Eq, Structural)]
pub struct ID {
    /// The key code of the mapped button.
    pub keycode: u16,
    /// The record that presses the mapped button.
    pub pressed: InputRecord,
    /// The record that releases the mapped button.
    pub released: InputRecord,
}

/// The latched snapshot of the physical stylus lines that all states share.
/// Each field reflects the most recently observed value of its input line;
/// the driver updates it strictly before the state machine consults it.
#[derive(Clone, Copy, Debug, PartialEq, Eq, Structural)]
pub struct Context {
    /// The stylus is within proximity range of the surface.
    pub pen: bool,
    /// The first stylus side button is held.
    pub stylus1: bool,
    /// The second stylus side button is held.
    pub stylus2: bool,
    /// The stylus tip touches the surface.
    pub touch: bool,
    /// Last observed absolute horizontal position; kept for future use.
    pub pos_x: i32,
    /// Last observed absolute vertical position; kept for future use.
    pub pos_y: i32,
}

/// The context at startup: nothing latched, position at the origin.
pub open spec fn initial_context() -> Context {
    Context { pen: false, stylus1: false, stylus2: false, touch: false, pos_x: 0, pos_y: 0 }
}

/// The context after the latch update for a key event with code `key` and
/// value `value`: the associated field, if any, becomes `value != 0`.
pub open spec fn ctx_after_key(ctx: Context, key: u16, value: i32) -> Context {
    if key == BTN_TOOL_PEN {
        Context { pen: value != 0, ..ctx }
    } else if key == BTN_STYLUS {
        Context { stylus1: value != 0, ..ctx }
    } else if key == BTN_STYLUS2 {
        Context { stylus2: value != 0, ..ctx }
    } else if key == BTN_TOUCH {
        Context { touch: value != 0, ..ctx }
    } else {
        ctx
    }
}

/// The context after a position update for the absolute axis `axis`.
pub open spec fn ctx_after_axis(ctx: Context, axis: u16, value: i32) -> Context {
    if axis == ABS_X {
        Context { pos_x: value, ..ctx }
    } else if axis == ABS_Y {
        Context { pos_y: value, ..ctx }
    } else {
        ctx
    }
}

impl Context {
    /// A fresh context with nothing latched.
    pub fn new() -> (c: Context)
        ensures
            c == initial_context(),
    {
        Context { pen: false, stylus1: false, stylus2: false, touch: false, pos_x: 0, pos_y: 0 }
    }

    /// Latch a raw key event: set the field associated with `key` to
    /// `value != 0`; keys with no associated field are ignored. This is a
    /// pure side effect the driver applies before the event is dispatched.
    pub fn update_input(&mut self, key: u16, value: i32)
        ensures
            *final(self) == ctx_after_key(*old(self), key, value),
    {
        let pressed = value != 0;
        if key == BTN_TOOL_PEN {
            self.pen = pressed;
        } else if key == BTN_STYLUS {
            self.stylus1 = pressed;
        } else if key == BTN_STYLUS2 {
            self.stylus2 = pressed;
        } else if key == BTN_TOUCH {
            self.touch = pressed;
        }
    }

    /// Record the last observed absolute position for `axis`; other axes
    /// are ignored.
    pub fn update_pos(&mut self, axis: u16, value: i32)
        ensures
            *final(self) == ctx_after_axis(*old(self), axis, value),
    {
        if axis == ABS_X {
            self.pos_x = value;
        } else if axis == ABS_Y {
            self.pos_y = value;
        }
    }
}

impl Default for Context {
    /// Same as [`Context::new`].
    fn default() -> (c: Context)
        ensures
            c == initial_context(),
    {
        Context::new()
    }
}

/// The active state of the stylus button machine: exactly one mapped mouse
/// button is down while a non-idle state is active. The active state is a
/// tagged variant over the four concrete states, so a transition replaces
/// the value wholesale and needs no allocation.
#[derive(Clone, Copy, Debug, PartialEq, Eq, Structural)]
pub enum StylusState {
    Idle(Idle),
    LMB(LMB),
    MMB(MMB),
    RMB(RMB),
}

/// The key code of the mapped button a state holds down; meaningful for the
/// three button states only.
pub open spec fn owned_code(s: StylusState) -> u16 {
    match s {
        StylusState::Idle(_) => 0,
        StylusState::LMB(_) => BTN_LEFT,
        StylusState::MMB(_) => BTN_MIDDLE,
        StylusState::RMB(_) => BTN_RIGHT,
    }
}

/// The mapped button a state holds down, or `None` in the idle state.
pub open spec fn owned_button(s: StylusState) -> Option<u16> {
    if s is Idle {
        None
    } else {
        Some(owned_code(s))
    }
}

/// The complete remapping policy: where one dispatched event sends the
/// machine, or `None` where it stays put. The context has already been
/// updated for the event when a state consults it.
///
/// The fail-safe rule comes first in every state: with the stylus out of
/// proximity the machine is forced to the idle state, whatever else the
/// event says. In the idle state a touch-down picks the target by the
/// latched modifiers, the first side button winning over the second by
/// deliberate policy. In a button state a touch-up returns to idle, and a
/// modifier toggled while touch is held hands control directly to the
/// sibling state: pressing a side button moves the plain left click to the
/// matching button state, and releasing the side button that put the
/// machine there falls back to whatever the remaining modifier state picks,
/// with no intervening visit to idle either way.
pub open spec fn stylus_step(s: StylusState, ctx: Context, ev: InputRecord) -> Option<StylusState> {
    if !ctx.pen {
        if s is Idle {
            None
        } else {
            Some(StylusState::Idle(Idle))
        }
    } else {
        match s {
            StylusState::Idle(_) => {
                if is_key_press(ev, BTN_TOUCH) {
                    if ctx.stylus1 {
                        Some(StylusState::RMB(RMB))
                    } else if ctx.stylus2 {
                        Some(StylusState::MMB(MMB))
                    } else {
                        Some(StylusState::LMB(LMB))
                    }
                } else {
                    None
                }
            },
            StylusState::LMB(_) => {
                if is_key_release(ev, BTN_TOUCH) {
                    Some(StylusState::Idle(Idle))
                } else if ctx.touch && is_key_press(ev, BTN_STYLUS) {
                    Some(StylusState::RMB(RMB))
                } else if ctx.touch && is_key_press(ev, BTN_STYLUS2) {
                    Some(StylusState::MMB(MMB))
                } else {
                    None
                }
            },
            StylusState::MMB(_) => {
                if is_key_release(ev, BTN_TOUCH) {
                    Some(StylusState::Idle(Idle))
                } else if ctx.touch && is_key_release(ev, BTN_STYLUS2) {
                    if ctx.stylus1 {
                        Some(StylusState::RMB(RMB))
                    } else {
                        Some(StylusState::LMB(LMB))
                    }
                } else {
                    None
                }
            },
            StylusState::RMB(_) => {
                if is_key_release(ev, BTN_TOUCH) {
                    Some(StylusState::Idle(Idle))
                } else if ctx.touch && is_key_release(ev, BTN_STYLUS) {
                    Some(StylusState::LMB(LMB))
                } else {
                    None
                }
            },
        }
    }
}

/// What the stylus machine emits on one dispatched event: nothing when it
/// stays, and the old state's exit outputs followed by the new state's
/// enter outputs when it changes. This mirrors the engine's fixed hook
/// order, with the update's own (always empty) outputs in front.
pub open spec fn machine_out(s: StylusState, ctx: Context, ev: InputRecord) -> Seq<InputRecord> {
    match stylus_step(s, ctx, ev) {
        None => s.step_out(ctx, ev),
        Some(next) => s.step_out(ctx, ev) + s.exit_out(ctx) + next.enter_out(ctx),
    }
}

/// The active state after one dispatched event.
pub open spec fn machine_next(s: StylusState, ctx: Context, ev: InputRecord) -> StylusState {
    match stylus_step(s, ctx, ev) {
        None => s,
        Some(next) => next,
    }
}

/// What a well-formed update of a stylus state returns: the step the policy
/// prescribes, and never any output of its own — all output comes from the
/// enter and exit hooks.
pub open spec fn transition_follows(
    s: StylusState,
    ctx: Context,
    ev: InputRecord,
    t: Transition<StylusState, InputRecord>,
) -> bool {
    match t {
        Transition::Stay(out) => {
            &&& stylus_step(s, ctx, ev) is None
            &&& out@ == Seq::<InputRecord>::empty()
        },
        Transition::Change(next, out) => {
            &&& stylus_step(s, ctx, ev) == Some(next)
            &&& out@ == Seq::<InputRecord>::empty()
        },
    }
}

impl State<Context, InputRecord, InputRecord> for StylusState {
    /// Entering a button state presses the mapped button it owns; entering
    /// the idle state emits nothing.
    open spec fn enter_out(self, ctx: Context) -> Seq<InputRecord> {
        match self {
            StylusState::Idle(_) => Seq::empty(),
            StylusState::LMB(_) => seq![press_record(BTN_LEFT)],
            StylusState::MMB(_) => seq![press_record(BTN_MIDDLE)],
            StylusState::RMB(_) => seq![press_record(BTN_RIGHT)],
        }
    }

    /// Leaving a button state releases the mapped button it owns; leaving
    /// the idle state emits nothing.
    open spec fn exit_out(self, ctx: Context) -> Seq<InputRecord> {
        match self {
            StylusState::Idle(_) => Seq::empty(),
            StylusState::LMB(_) => seq![release_record(BTN_LEFT)],
            StylusState::MMB(_) => seq![release_record(BTN_MIDDLE)],
            StylusState::RMB(_) => seq![release_record(BTN_RIGHT)],
        }
    }

    /// The policy of [`stylus_step`].
    open spec fn step_to(self, ctx: Context, event: InputRecord) -> Option<StylusState> {
        stylus_step(self, ctx, event)
    }

    /// An update never emits on its own; presses and releases come from the
    /// hooks around a state change.
    open spec fn step_out(self, ctx: Context, event: InputRecord) -> Seq<InputRecord> {
        Seq::empty()
    }

    fn enter(&mut self, ctx: &mut Context) -> (out: Vec<InputRecord>) {
        match &*self {
            StylusState::Idle(s) => s.enter(&*ctx),
            StylusState::LMB(s) => s.enter(&*ctx),
            StylusState::MMB(s) => s.enter(&*ctx),
            StylusState::RMB(s) => s.enter(&*ctx),
        }
    }

    fn exit(&mut self, ctx: &mut Context) -> (out: Vec<InputRecord>) {
        match &*self {
            StylusState::Idle(s) => s.exit(&*ctx),
            StylusState::LMB(s) => s.exit(&*ctx),
            StylusState::MMB(s) => s.exit(&*ctx),
            StylusState::RMB(s) => s.exit(&*ctx),
        }
    }

    fn update(&mut self, ctx: &mut Context, event: InputRecord) -> (t: Transition<
        StylusState,
        InputRecord,
    >) {
        match &*self {
            StylusState::Idle(s) => s.update(&*ctx, event),
            StylusState::LMB(s) => s.update(&*ctx, event),
            StylusState::MMB(s) => s.update(&*ctx, event),
            StylusState::RMB(s) => s.update(&*ctx, event),
        }
    }
}

} // verus!
