use vstd::prelude::*;

use crate::events::{
    press_record, release_record, InputRecord, BTN_LEFT, BTN_STYLUS, BTN_STYLUS2, BTN_TOUCH,
    EV_KEY,
};
use crate::state_machine::Transition;
use crate::stylus::idle::Idle;
use crate::stylus::mmb::MMB;
use crate::stylus::rmb::RMB;
use crate::stylus::{transition_follows, Context, StylusState, ID};

verus! {

/// The left-click state: plain touch with no modifier latched. Owns the
/// emulated left mouse button.
#[derive(Clone, Copy, Debug, PartialEq, Eq, Structural)]
pub struct LMB;

impl LMB {
    /// The binding of this state: the left mouse button with its press and
    /// release records.
    pub fn id(&self) -> (r: ID)
        ensures
            r.keycode == BTN_LEFT,
            r.pressed == press_record(BTN_LEFT),
            r.released == release_record(BTN_LEFT),
    {
        ID {
            keycode: BTN_LEFT,
            pressed: InputRecord::new(EV_KEY, BTN_LEFT, 1),
            released: InputRecord::new(EV_KEY, BTN_LEFT, 0),
        }
    }

    /// Press the owned left button.
    pub fn enter(&self, _ctx: &Context) -> (out: Vec<InputRecord>)
        ensures
            out@ == seq![press_record(BTN_LEFT)],
    {
        let id = self.id();
        let mut out: Vec<InputRecord> = Vec::new();
        out.push(id.pressed);
        out
    }

    /// Release the owned left button.
    pub fn exit(&self, _ctx: &Context) -> (out: Vec<InputRecord>)
        ensures
            out@ == seq![release_record(BTN_LEFT)],
    {
        let id = self.id();
        let mut out: Vec<InputRecord> = Vec::new();
        out.push(id.released);
        out
    }

    /// Dispatch one event while the left button is held. Losing proximity
    /// or lifting the touch returns to idle; a side button pressed while
    /// touch is held hands control directly to the matching sibling state.
    pub fn update(&self, ctx: &Context, event: InputRecord) -> (t: Transition<
        StylusState,
        InputRecord,
    >)
        ensures
            transition_follows(StylusState::LMB(*self), *ctx, event, t),
    {
        if !ctx.pen {
            return Transition::Change(StylusState::Idle(Idle), Vec::new());
        }

        if event.kind == EV_KEY && event.code == BTN_TOUCH && event.value == 0 {
            Transition::Change(StylusState::Idle(Idle), Vec::new())
        } else if ctx.touch && event.kind == EV_KEY && event.code == BTN_STYLUS && event.value != 0
        {
            Transition::Change(StylusState::RMB(RMB), Vec::new())
        } else if ctx.touch && event.kind == EV_KEY && event.code == BTN_STYLUS2
            && event.value != 0 {
            Transition::Change(StylusState::MMB(MMB), Vec::new())
        } else {
            Transition::Stay(Vec::new())
        }
    }
}

} // verus!
