use vstd::prelude::*;

use crate::events::{
    press_record, release_record, InputRecord, BTN_RIGHT, BTN_STYLUS, BTN_TOUCH, EV_KEY,
};
use crate::state_machine::Transition;
use crate::stylus::idle::Idle;
use crate::stylus::lmb::LMB;
use crate::stylus::{transition_follows, Context, StylusState, ID};

verus! {

/// The right-click state: touch taken with the first side button latched.
/// Owns the emulated right mouse button.
#[derive(Clone, Copy, Debug, PartialEq, Eq, Structural)]
pub struct RMB;

impl RMB {
    /// The binding of this state: the right mouse button with its press and
    /// release records.
    pub fn id(&self) -> (r: ID)
        ensures
            r.keycode == BTN_RIGHT,
            r.pressed == press_record(BTN_RIGHT),
            r.released == release_record(BTN_RIGHT),
    {
        ID {
            keycode: BTN_RIGHT,
            pressed: InputRecord::new(EV_KEY, BTN_RIGHT, 1),
            released: InputRecord::new(EV_KEY, BTN_RIGHT, 0),
        }
    }

    /// Press the owned right button.
    pub fn enter(&self, _ctx: &Context) -> (out: Vec<InputRecord>)
        ensures
            out@ == seq![press_record(BTN_RIGHT)],
    {
        let id = self.id();
        let mut out: Vec<InputRecord> = Vec::new();
        out.push(id.pressed);
        out
    }

    /// Release the owned right button.
    pub fn exit(&self, _ctx: &Context) -> (out: Vec<InputRecord>)
        ensures
            out@ == seq![release_record(BTN_RIGHT)],
    {
        let id = self.id();
        let mut out: Vec<InputRecord> = Vec::new();
        out.push(id.released);
        out
    }

    /// Dispatch one event while the right button is held. Losing proximity
    /// or lifting the touch returns to idle; releasing the first side
    /// button while touch is held hands control directly back to the
    /// left-click state, with no intervening visit to idle.
    pub fn update(&self, ctx: &Context, event: InputRecord) -> (t: Transition<
        StylusState,
        InputRecord,
    >)
        ensures
            transition_follows(StylusState::RMB(*self), *ctx, event, t),
    {
        if !ctx.pen {
            return Transition::Change(StylusState::Idle(Idle), Vec::new());
        }

        if event.kind == EV_KEY && event.code == BTN_TOUCH && event.value == 0 {
            Transition::Change(StylusState::Idle(Idle), Vec::new())
        } else if ctx.touch && event.kind == EV_KEY && event.code == BTN_STYLUS && event.value == 0
        {
            Transition::Change(StylusState::LMB(LMB), Vec::new())
        } else {
            Transition::Stay(Vec::new())
        }
    }
}

} // verus!
