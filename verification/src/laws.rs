use vstd::prelude::*;

use crate::events::{
    is_key_press, is_key_release, press_record, release_record, InputRecord, BTN_STYLUS,
    BTN_STYLUS2, BTN_TOUCH, EV_KEY,
};
use crate::stylus::idle::Idle;
use crate::stylus::rmb::RMB;
use crate::stylus::{
    ctx_after_key, machine_next, machine_out, owned_button, owned_code, stylus_step, Context,
    StylusState,
};

verus! {

/// Read an output stream record by record, starting with `down` as the
/// mapped button currently held down. A press is admissible only while no
/// button is down, a release only of the button that is down, and nothing
/// but key records may appear. The result is the button down after the
/// stream, or `None` for a stream that breaks this discipline.
pub open spec fn apply_outputs(down: Option<u16>, out: Seq<InputRecord>) -> Option<Option<u16>>
    decreases out.len(),
{
    if out.len() == 0 {
        Some(down)
    } else {
        let e = out[0];
        let rest = out.subrange(1, out.len() as int);
        if e.kind == EV_KEY && e.value != 0 {
            if down is None {
                apply_outputs(Some(e.code), rest)
            } else {
                None
            }
        } else if e.kind == EV_KEY && e.value == 0 {
            if down == Some(e.code) {
                apply_outputs(None, rest)
            } else {
                None
            }
        } else {
            None
        }
    }
}

/// The state of the machine after a history of dispatched key events, each
/// latched into the context before its dispatch, as the driver does.
pub open spec fn run_state(s: StylusState, ctx: Context, evs: Seq<InputRecord>) -> StylusState
    decreases evs.len(),
{
    if evs.len() == 0 {
        s
    } else {
        let c = ctx_after_key(ctx, evs[0].code, evs[0].value);
        run_state(machine_next(s, c, evs[0]), c, evs.subrange(1, evs.len() as int))
    }
}

/// Everything the machine emits over a history of dispatched key events,
/// in order.
pub open spec fn run_outputs(s: StylusState, ctx: Context, evs: Seq<InputRecord>) -> Seq<
    InputRecord,
>
    decreases evs.len(),
{
    if evs.len() == 0 {
        Seq::empty()
    } else {
        let c = ctx_after_key(ctx, evs[0].code, evs[0].value);
        machine_out(s, c, evs[0]) + run_outputs(
            machine_next(s, c, evs[0]),
            c,
            evs.subrange(1, evs.len() as int),
        )
    }
}

/// Fail-safe: whatever the state and whatever the event, once the
/// proximity latch is off, dispatching the event forces the machine to the
/// idle state, and it emits exactly one release record — that of the
/// mapped button the state owned — or nothing at all when it was already
/// idle. No button can stay latched after the stylus leaves proximity.
pub proof fn lemma_fail_safe(s: StylusState, ctx: Context, ev: InputRecord)
    requires
        !ctx.pen,
    ensures
        machine_next(s, ctx, ev) is Idle,
        s is Idle ==> machine_out(s, ctx, ev) == Seq::<InputRecord>::empty(),
        !(s is Idle) ==> machine_out(s, ctx, ev) == seq![release_record(owned_code(s))],
{
    if s is Idle {
        assert(machine_out(s, ctx, ev) =~= Seq::<InputRecord>::empty());
    } else {
        assert(machine_out(s, ctx, ev) =~= seq![release_record(owned_code(s))]);
    }
}

/// Mutual exclusion, one step: dispatching any event keeps the output
/// stream balanced. Starting from the button the state owns, the emitted
/// records press a button only while none is down and release exactly the
/// button that is down, and afterwards exactly the button of the new state
/// is down. In particular a press of a button is always followed, before
/// any other press, by the release of that same button.
pub proof fn lemma_mutual_exclusion_step(s: StylusState, ctx: Context, ev: InputRecord)
    ensures
        apply_outputs(owned_button(s), machine_out(s, ctx, ev)) == Some(
            owned_button(machine_next(s, ctx, ev)),
        ),
{
    let out = machine_out(s, ctx, ev);
    match stylus_step(s, ctx, ev) {
        None => {
            assert(out =~= Seq::<InputRecord>::empty());
        },
        Some(next) => {
            if s is Idle {
                let cn = owned_code(next);
                assert(out =~= seq![press_record(cn)]);
                let rest = out.subrange(1, out.len() as int);
                assert(rest =~= Seq::<InputRecord>::empty());
                assert(apply_outputs(Some(cn), rest) == Some(Some(cn)));
            } else if next is Idle {
                let cs = owned_code(s);
                assert(out =~= seq![release_record(cs)]);
                let rest = out.subrange(1, out.len() as int);
                assert(rest =~= Seq::<InputRecord>::empty());
                assert(apply_outputs(None::<u16>, rest) == Some(None::<u16>));
            } else {
                let cs = owned_code(s);
                let cn = owned_code(next);
                assert(out =~= seq![release_record(cs), press_record(cn)]);
                let rest1 = out.subrange(1, out.len() as int);
                assert(rest1 =~= seq![press_record(cn)]);
                let rest2 = rest1.subrange(1, rest1.len() as int);
                assert(rest2 =~= Seq::<InputRecord>::empty());
                assert(apply_outputs(Some(cn), rest2) == Some(Some(cn)));
                assert(apply_outputs(None::<u16>, rest1) == Some(Some(cn)));
            }
        },
    }
}

/// Reading a balanced stream and then more records is the same as reading
/// the rest from where the first part left off.
pub proof fn lemma_apply_outputs_concat(
    down: Option<u16>,
    mid: Option<u16>,
    a: Seq<InputRecord>,
    b: Seq<InputRecord>,
)
    requires
        apply_outputs(down, a) == Some(mid),
    ensures
        apply_outputs(down, a + b) == apply_outputs(mid, b),
    decreases a.len(),
{
    if a.len() == 0 {
        assert(a + b =~= b);
    } else {
        let e = a[0];
        let rest = a.subrange(1, a.len() as int);
        assert((a + b)[0] == e);
        assert((a + b).subrange(1, (a + b).len() as int) =~= rest + b);
        if e.kind == EV_KEY && e.value != 0 {
            if down is None {
                lemma_apply_outputs_concat(Some(e.code), mid, rest, b);
            }
        } else if e.kind == EV_KEY && e.value == 0 {
            if down == Some(e.code) {
                lemma_apply_outputs_concat(None::<u16>, mid, rest, b);
            }
        }
    }
}

/// Mutual exclusion over any history: over any sequence of dispatched key
/// events, from any starting state, the whole output stream is balanced —
/// at any point at most one mapped button is down, every press record of a
/// button is followed, before any other press record, by the release
/// record of that same button, and at the end exactly the button of the
/// final state is down.
pub proof fn lemma_mutual_exclusion(s: StylusState, ctx: Context, evs: Seq<InputRecord>)
    ensures
        apply_outputs(owned_button(s), run_outputs(s, ctx, evs)) == Some(
            owned_button(run_state(s, ctx, evs)),
        ),
    decreases evs.len(),
{
    if evs.len() == 0 {
    } else {
        let c = ctx_after_key(ctx, evs[0].code, evs[0].value);
        let s2 = machine_next(s, c, evs[0]);
        let rest = evs.subrange(1, evs.len() as int);
        lemma_mutual_exclusion_step(s, c, evs[0]);
        lemma_mutual_exclusion(s2, c, rest);
        lemma_apply_outputs_concat(
            owned_button(s),
            owned_button(s2),
            machine_out(s, c, evs[0]),
            run_outputs(s2, c, rest),
        );
    }
}

/// Priority determinism: with both side buttons latched, a touch-down from
/// idle always picks the right-click state — the first side button wins
/// over the second, never the middle-click state.
pub proof fn lemma_priority_determinism(ctx: Context, ev: InputRecord)
    requires
        ctx.pen,
        ctx.stylus1,
        ctx.stylus2,
        is_key_press(ev, BTN_TOUCH),
    ensures
        stylus_step(StylusState::Idle(Idle), ctx, ev) == Some(StylusState::RMB(RMB)),
{
}

/// Idempotent no-op: a touch-release dispatched to the idle machine while
/// nothing touches is ignored — the machine stays idle and emits nothing.
/// (The dispatch itself never alters the context.)
pub proof fn lemma_idle_touch_release_noop(ctx: Context, ev: InputRecord)
    requires
        ctx.pen,
        !ctx.touch,
        is_key_release(ev, BTN_TOUCH),
    ensures
        stylus_step(StylusState::Idle(Idle), ctx, ev) is None,
        machine_out(StylusState::Idle(Idle), ctx, ev) == Seq::<InputRecord>::empty(),
{
}

/// Idempotent no-op: a side button pressed while touch is already held
/// only latches as a modifier — the idle machine stays idle and emits
/// nothing. (The dispatch itself never alters the context.)
pub proof fn lemma_idle_modifier_noop(ctx: Context, ev: InputRecord)
    requires
        ctx.pen,
        ctx.touch,
        is_key_press(ev, BTN_STYLUS) || is_key_press(ev, BTN_STYLUS2),
    ensures
        stylus_step(StylusState::Idle(Idle), ctx, ev) is None,
        machine_out(StylusState::Idle(Idle), ctx, ev) == Seq::<InputRecord>::empty(),
{
}

} // verus!
