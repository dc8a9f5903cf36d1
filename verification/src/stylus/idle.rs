use vstd::prelude::*;

use crate::events::{InputRecord, EV_KEY, BTN_TOUCH};
use crate::state_machine::Transition;
use crate::stylus::lmb::LMB;
use crate::stylus::mmb::MMB;
use crate::stylus::rmb::RMB;
use crate::stylus::{transition_follows, Context, StylusState};

verus! {

/// The resting state: no mapped button is down. Side-button presses merely
/// latch as modifiers (the driver has already updated the context), and a
/// touch-down picks the button state that the latched modifiers prescribe.
#[derive(Clone, Copy, Debug, PartialEq, Eq, Structural)]
pub struct Idle;

impl Idle {
    /// Becoming idle emits nothing.
    pub fn enter(&self, _ctx: &Context) -> (out: Vec<InputRecord>)
        ensures
            out@ == Seq::<InputRecord>::empty(),
    {
        Vec::new()
    }

    /// Leaving idle emits nothing.
    pub fn exit(&self, _ctx: &Context) -> (out: Vec<InputRecord>)
        ensures
            out@ == Seq::<InputRecord>::empty(),
    {
        Vec::new()
    }

    /// Dispatch one event while idle. With the stylus out of proximity this
    /// is a no-op: the machine is already where the fail-safe sends it. A
    /// touch-down transitions to the right-click state when the first side
    /// button is latched, to the middle-click state when only the second
    /// is, and to the left-click state when neither is — the first side
    /// button wins the race by deliberate policy. Everything else stays,
    /// with no output.
    pub fn update(&self, ctx: &Context, event: InputRecord) -> (t: Transition<
        StylusState,
        InputRecord,
    >)
        ensures
            transition_follows(StylusState::Idle(*self), *ctx, event, t),
    {
        if !ctx.pen {
            return Transition::Stay(Vec::new());
        }

        if event.kind == EV_KEY && event.code == BTN_TOUCH && event.value != 0 {
            if ctx.stylus1 {
                Transition::Change(StylusState::RMB(RMB), Vec::new())
            } else if ctx.stylus2 {
                Transition::Change(StylusState::MMB(MMB), Vec::new())
            } else {
                Transition::Change(StylusState::LMB(LMB), Vec::new())
            }
        } else {
            Transition::Stay(Vec::new())
        }
    }
}

} // verus!
