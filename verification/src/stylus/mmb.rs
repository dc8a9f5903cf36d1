use vstd::prelude::*;

use crate::events::{
    press_record, release_record, InputRecord, BTN_MIDDLE, BTN_STYLUS2, BTN_TOUCH, EV_KEY,
};
use crate::state_machine::Transition;
use crate::stylus::idle::Idle;
use crate::stylus::lmb::LMB;
use crate::stylus::rmb::RMB;
use crate::stylus::{transition_follows, Context, StylusState, ID};

verus! {

/// The middle-click state: touch taken with the second side button
/// latched. Owns the emulated middle mouse button.
#[derive(Clone, Copy, Debug, PartialEq, Eq, Structural)]
pub struct MMB;

impl MMB {
    /// The binding of this state: the middle mouse button with its press
    /// and release records.
    pub fn id(&self) -> (r: ID)
        ensures
            r.keycode == BTN_MIDDLE,
            r.pressed == press_record(BTN_MIDDLE),
            r.released == release_record(BTN_MIDDLE),
    {
        ID {
            keycode: BTN_MIDDLE,
            pressed: InputRecord::new(EV_KEY, BTN_MIDDLE, 1),
            released: InputRecord::new(EV_KEY, BTN_MIDDLE, 0),
        }
    }

    /// Press the owned middle button.
    pub fn enter(&self, _ctx: &Context) -> (out: Vec<InputRecord>)
        ensures
            out@ == seq![press_record(BTN_MIDDLE)],
    {
        let id = self.id();
        let mut out: Vec<InputRecord> = Vec::new();
        out.push(id.pressed);
        out
    }

    /// Release the owned middle button.
    pub fn exit(&self, _ctx: &Context) -> (out: Vec<InputRecord>)
        ensures
            out@ == seq![release_record(BTN_MIDDLE)],
    {
        let id = self.id();
        let mut out: Vec<InputRecord> = Vec::new();
        out.push(id.released);
        out
    }

    /// Dispatch one event while the middle button is held. Losing proximity
    /// or lifting the touch returns to idle. Releasing the second side
    /// button while touch is held hands control directly to the state the
    /// remaining modifier picks: the right-click state when the first side
    /// button is still latched, the left-click state otherwise.
    pub fn update(&self, ctx: &Context, event: InputRecord) -> (t: Transition<
        StylusState,
        InputRecord,
    >)
        ensures
            transition_follows(StylusState::MMB(*self), *ctx, event, t),
    {
        if !ctx.pen {
            return Transition::Change(StylusState::Idle(Idle), Vec::new());
        }

        if event.kind == EV_KEY && event.code == BTN_TOUCH && event.value == 0 {
            Transition::Change(StylusState::Idle(Idle), Vec::new())
        } else if ctx.touch && event.kind == EV_KEY && event.code == BTN_STYLUS2
            && event.value == 0 {
            if ctx.stylus1 {
                Transition::Change(StylusState::RMB(RMB), Vec::new())
            } else {
                Transition::Change(StylusState::LMB(LMB), Vec::new())
            }
        } else {
            Transition::Stay(Vec::new())
        }
    }
}

} // verus!
