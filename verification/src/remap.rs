use vstd::prelude::*;

use crate::events::{InputRecord, EV_KEY, EV_SYN};
use crate::state_machine::StateMachine;
use crate::stylus::{ctx_after_key, machine_next, machine_out, Context, StylusState};

verus! {

/// The transient per-report batch of output records awaiting the next
/// synchronization boundary.
pub struct HybridInputEvents {
    /// The records accumulated since the last flush, oldest first.
    pub events: Vec<InputRecord>,
}

impl HybridInputEvents {
    /// An empty batch.
    pub fn new() -> (b: HybridInputEvents)
        ensures
            b.events@ == Seq::<InputRecord>::empty(),
    {
        let events: Vec<InputRecord> = Vec::new();

        HybridInputEvents { events }
    }

    /// Append one record to the batch.
    pub fn push(&mut self, input_event: InputRecord)
        ensures
            final(self).events@ == old(self).events@.push(input_event),
    {
        self.events.push(input_event);
    }

    /// Whether nothing is waiting to be flushed.
    pub fn is_empty(&self) -> (r: bool)
        ensures
            r == (self.events@.len() == 0),
    {
        self.events.is_empty()
    }

    /// Drop everything that is waiting.
    pub fn clear(&mut self)
        ensures
            final(self).events@ == Seq::<InputRecord>::empty(),
    {
        self.events.clear();
    }

    /// Hand the whole batch out and leave the batch empty: the flush
    /// operation of the batching discipline.
    pub fn take(&mut self) -> (out: Vec<InputRecord>)
        ensures
            out@ == old(self).events@,
            final(self).events@ == Seq::<InputRecord>::empty(),
    {
        let mut taken: Vec<InputRecord> = Vec::new();
        core::mem::swap(&mut taken, &mut self.events);
        taken
    }
}

/// The event batcher of the driver loop: it routes one raw event at a
/// time and guarantees that translated and forwarded output reaches the
/// output device only as whole per-report batches, never piecemeal.
pub struct EventBatcher {
    /// The per-report batch; nothing in it persists across a flush.
    pub batch: HybridInputEvents,
    /// Whether non-key events are forwarded into the batch or discarded.
    pub forward: bool,
}

impl EventBatcher {
    /// A batcher with an empty batch.
    pub fn new(forward: bool) -> (b: EventBatcher)
        ensures
            b.forward == forward,
            b.batch.events@ == Seq::<InputRecord>::empty(),
    {
        EventBatcher { batch: HybridInputEvents::new(), forward }
    }

    /// Route one raw event.
    ///
    /// A key event updates the context latches, is dispatched to the
    /// machine, and whatever the machine emits is appended to the batch —
    /// never emitted individually. A synchronization marker flushes: the
    /// whole accumulated batch is handed back for one atomic write and the
    /// batch is empty afterwards. Any other event is appended to the batch
    /// when forwarding is enabled and discarded otherwise. Only a
    /// synchronization marker ever hands records out, and then all of
    /// them: no partial batch can be observed.
    pub fn feed(
        &mut self,
        ctx: &mut Context,
        machine: &mut StateMachine<StylusState>,
        ev: InputRecord,
    ) -> (flush: Option<Vec<InputRecord>>)
        ensures
            final(self).forward == old(self).forward,
            ev.kind == EV_KEY ==> {
                &&& flush is None
                &&& *final(ctx) == ctx_after_key(*old(ctx), ev.code, ev.value)
                &&& final(machine).state == machine_next(
                    old(machine).state,
                    ctx_after_key(*old(ctx), ev.code, ev.value),
                    ev,
                )
                &&& final(self).batch.events@ == old(self).batch.events@ + machine_out(
                    old(machine).state,
                    ctx_after_key(*old(ctx), ev.code, ev.value),
                    ev,
                )
            },
            ev.kind == EV_SYN ==> {
                &&& flush matches Some(v) && v@ == old(self).batch.events@
                &&& final(self).batch.events@ == Seq::<InputRecord>::empty()
                &&& *final(ctx) == *old(ctx)
                &&& final(machine).state == old(machine).state
            },
            ev.kind != EV_KEY && ev.kind != EV_SYN ==> {
                &&& flush is None
                &&& *final(ctx) == *old(ctx)
                &&& final(machine).state == old(machine).state
                &&& final(self).batch.events@ == if old(self).forward {
                    old(self).batch.events@.push(ev)
                } else {
                    old(self).batch.events@
                }
            },
    {
        if ev.kind == EV_KEY {
            ctx.update_input(ev.code, ev.value);
            let mut outputs = machine.handle_event(ctx, ev);
            self.batch.events.append(&mut outputs);
            None
        } else if ev.kind == EV_SYN {
            Some(self.batch.take())
        } else {
            if self.forward {
                self.batch.push(ev);
            }
            None
        }
    }
}

} // verus!
