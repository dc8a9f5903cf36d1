use stylus_remap::events::{
    InputRecord, BTN_LEFT, BTN_MIDDLE, BTN_RIGHT, BTN_STYLUS, BTN_STYLUS2, BTN_TOOL_PEN,
    BTN_TOUCH, EV_KEY,
};
use stylus_remap::state_machine::StateMachine;
use stylus_remap::stylus::idle::Idle;
use stylus_remap::stylus::lmb::LMB;
use stylus_remap::stylus::mmb::MMB;
use stylus_remap::stylus::rmb::RMB;
use stylus_remap::stylus::{Context, StylusState};

fn key(code: u16, value: i32) -> InputRecord {
    InputRecord::new(EV_KEY, code, value)
}

fn press(code: u16) -> InputRecord {
    InputRecord::new(EV_KEY, code, 1)
}

fn release(code: u16) -> InputRecord {
    InputRecord::new(EV_KEY, code, 0)
}

/// Drive the machine as the driver does: latch the event into the context,
/// then dispatch it.
fn step(
    machine: &mut StateMachine<StylusState>,
    ctx: &mut Context,
    ev: InputRecord,
) -> Vec<InputRecord> {
    ctx.update_input(ev.code, ev.value);
    machine.handle_event(ctx, ev)
}

#[test]
fn right_click_scenario() {
    // pen=1, stylus1=1, touch=1, touch=0, stylus1=0, pen=0 yields a
    // right-click press, then its release, then nothing further.
    let mut ctx = Context::new();
    let mut machine = StateMachine::new(StylusState::Idle(Idle));

    assert_eq!(step(&mut machine, &mut ctx, key(BTN_TOOL_PEN, 1)), vec![]);
    assert_eq!(step(&mut machine, &mut ctx, key(BTN_STYLUS, 1)), vec![]);
    assert_eq!(
        step(&mut machine, &mut ctx, key(BTN_TOUCH, 1)),
        vec![press(BTN_RIGHT)]
    );
    assert_eq!(machine.state, StylusState::RMB(RMB));
    assert_eq!(
        step(&mut machine, &mut ctx, key(BTN_TOUCH, 0)),
        vec![release(BTN_RIGHT)]
    );
    assert_eq!(machine.state, StylusState::Idle(Idle));
    assert_eq!(step(&mut machine, &mut ctx, key(BTN_STYLUS, 0)), vec![]);
    // Already idle: losing proximity emits nothing further.
    assert_eq!(step(&mut machine, &mut ctx, key(BTN_TOOL_PEN, 0)), vec![]);
    assert_eq!(machine.state, StylusState::Idle(Idle));
}

#[test]
fn left_to_middle_scenario() {
    // pen=1, touch=1, stylus2=1, touch=0: the second side button pressed
    // mid-left-click hands control directly to the middle-click state —
    // release-then-press, with no visit to idle in between.
    let mut ctx = Context::new();
    let mut machine = StateMachine::new(StylusState::Idle(Idle));

    assert_eq!(step(&mut machine, &mut ctx, key(BTN_TOOL_PEN, 1)), vec![]);
    assert_eq!(
        step(&mut machine, &mut ctx, key(BTN_TOUCH, 1)),
        vec![press(BTN_LEFT)]
    );
    assert_eq!(machine.state, StylusState::LMB(LMB));
    assert_eq!(
        step(&mut machine, &mut ctx, key(BTN_STYLUS2, 1)),
        vec![release(BTN_LEFT), press(BTN_MIDDLE)]
    );
    assert_eq!(machine.state, StylusState::MMB(MMB));
    assert_eq!(
        step(&mut machine, &mut ctx, key(BTN_TOUCH, 0)),
        vec![release(BTN_MIDDLE)]
    );
    assert_eq!(machine.state, StylusState::Idle(Idle));
}

#[test]
fn proximity_loss_releases_the_held_button() {
    // From any button state, a pen-left-proximity update forces idle on
    // the next dispatch and emits exactly one release record.
    let mut ctx = Context::new();
    let mut machine = StateMachine::new(StylusState::Idle(Idle));

    step(&mut machine, &mut ctx, key(BTN_TOOL_PEN, 1));
    step(&mut machine, &mut ctx, key(BTN_TOUCH, 1));
    assert_eq!(machine.state, StylusState::LMB(LMB));

    let out = step(&mut machine, &mut ctx, key(BTN_TOOL_PEN, 0));
    assert_eq!(out, vec![release(BTN_LEFT)]);
    assert_eq!(machine.state, StylusState::Idle(Idle));
}

#[test]
fn every_press_is_released_before_the_next_press() {
    // A longer history: at every point at most one mapped button is down,
    // and each press is followed by the matching release before any other
    // press appears.
    let mut ctx = Context::new();
    let mut machine = StateMachine::new(StylusState::Idle(Idle));
    let history = [
        key(BTN_TOOL_PEN, 1),
        key(BTN_TOUCH, 1),     // left down
        key(BTN_STYLUS, 1),    // left up, right down
        key(BTN_STYLUS, 0),    // right up, left down
        key(BTN_STYLUS2, 1),   // left up, middle down
        key(BTN_TOUCH, 0),     // middle up
        key(BTN_TOUCH, 1),     // middle down (stylus2 still latched)
        key(BTN_TOOL_PEN, 0),  // fail-safe: middle up
    ];

    let mut down: Option<u16> = None;
    let mut outputs: Vec<InputRecord> = Vec::new();
    for ev in history {
        outputs.extend(step(&mut machine, &mut ctx, ev));
    }
    for o in &outputs {
        assert_eq!(o.kind, EV_KEY);
        if o.value != 0 {
            assert!(down.is_none(), "press while {down:?} was down");
            down = Some(o.code);
        } else {
            assert_eq!(down, Some(o.code), "release of a button not down");
            down = None;
        }
    }
    assert_eq!(down, None);
    assert_eq!(machine.state, StylusState::Idle(Idle));
}
