use vstd::prelude::*;

verus! {

/// The result of feeding one event to the active state: the machine either
/// stays in that state or changes to a new one. Either way the step carries
/// the outputs that the update itself produced.
pub enum Transition<S, O> {
    Stay(Vec<O>),
    Change(S, Vec<O>),
}

/// The capability contract of a state that a [`StateMachine`] can drive.
///
/// A state observes a shared context of type `C`, consumes events of type
/// `E`, and emits outputs of type `O`. The four spec functions give the
/// complete mathematical model of a state: what entering and leaving it
/// emits, where an event sends it, and what the update itself emits. The
/// executable hooks are bound to that model, and none of them alters the
/// context or the state value itself: context updates are applied by the
/// driver strictly before an event is dispatched.
pub trait State<C, E, O>: Sized {
    /// The outputs emitted when this state becomes active.
    spec fn enter_out(self, ctx: C) -> Seq<O>;

    /// The outputs emitted when this state is abandoned.
    spec fn exit_out(self, ctx: C) -> Seq<O>;

    /// The state the machine moves to on `event`, or `None` to stay.
    spec fn step_to(self, ctx: C, event: E) -> Option<Self>;

    /// The outputs the update itself emits on `event`, before any hook runs.
    spec fn step_out(self, ctx: C, event: E) -> Seq<O>;

    /// Hook that runs when the state becomes active.
    fn enter(&mut self, ctx: &mut C) -> (out: Vec<O>)
        ensures
            *final(self) == *old(self),
            *final(ctx) == *old(ctx),
            out@ == old(self).enter_out(*old(ctx)),
    ;

    /// Hook that runs when the state is abandoned.
    fn exit(&mut self, ctx: &mut C) -> (out: Vec<O>)
        ensures
            *final(self) == *old(self),
            *final(ctx) == *old(ctx),
            out@ == old(self).exit_out(*old(ctx)),
    ;

    /// Feed one event to the state and learn whether it keeps control.
    fn update(&mut self, ctx: &mut C, event: E) -> (t: Transition<Self, O>)
        ensures
            *final(self) == *old(self),
            *final(ctx) == *old(ctx),
            match t {
                Transition::Stay(out) => {
                    &&& old(self).step_to(*old(ctx), event) is None
                    &&& out@ == old(self).step_out(*old(ctx), event)
                },
                Transition::Change(next, out) => {
                    &&& old(self).step_to(*old(ctx), event) == Some(next)
                    &&& out@ == old(self).step_out(*old(ctx), event)
                },
            },
    ;
}

/// A minimal, reusable state-machine engine. It owns exactly one active
/// state at any time, dispatches events to it, and sequences the exit and
/// enter hooks around a state change, so that a change is atomic from the
/// caller's point of view.
pub struct StateMachine<S> {
    /// The single active state.
    pub state: S,
}

impl<S> StateMachine<S> {
    /// Create an engine whose active state is `initial`. No enter hook runs
    /// for the initial state.
    pub fn new(initial: S) -> (m: StateMachine<S>)
        ensures
            m.state == initial,
    {
        StateMachine { state: initial }
    }

    /// Dispatch `event` to the active state.
    ///
    /// If the state stays, the update's own outputs are returned unchanged
    /// and no hook runs. If it changes, the returned sequence is the
    /// update's outputs, then the old state's exit outputs, then the new
    /// state's enter outputs, in that fixed order, and the new state is
    /// active afterwards. The context is never altered by a dispatch.
    pub fn handle_event<C, E, O>(&mut self, ctx: &mut C, event: E) -> (out: Vec<O>) where
        S: State<C, E, O>,
        ensures
            *final(ctx) == *old(ctx),
            match old(self).state.step_to(*old(ctx), event) {
                None => {
                    &&& final(self).state == old(self).state
                    &&& out@ == old(self).state.step_out(*old(ctx), event)
                },
                Some(next) => {
                    &&& final(self).state == next
                    &&& out@ == old(self).state.step_out(*old(ctx), event)
                        + old(self).state.exit_out(*old(ctx))
                        + next.enter_out(*old(ctx))
                },
            },
    {
        match self.state.update(ctx, event) {
            Transition::Stay(outputs) => outputs,
            Transition::Change(new_state, outputs) => {
                let mut new_state = new_state;
                let mut outputs = outputs;

                // collect exit outputs of the state that hands control away
                let mut exit_outputs = self.state.exit(ctx);
                outputs.append(&mut exit_outputs);

                // collect enter outputs of the state that takes over
                let mut enter_outputs = new_state.enter(ctx);
                outputs.append(&mut enter_outputs);

                self.state = new_state;
                outputs
            },
        }
    }
}

} // verus!
