use stylus_remap::events::{
    InputRecord, ABS_X, ABS_Y, BTN_LEFT, BTN_MIDDLE, BTN_RIGHT, BTN_STYLUS, BTN_STYLUS2, BTN_TOOL_PEN,
    BTN_TOUCH, EV_KEY,
};
use stylus_remap::state_machine::Transition;
use stylus_remap::stylus::idle::Idle;
use stylus_remap::stylus::lmb::LMB;
use stylus_remap::stylus::mmb::MMB;
use stylus_remap::stylus::rmb::RMB;
use stylus_remap::stylus::{Context, StylusState};

fn key(code: u16, value: i32) -> InputRecord {
    InputRecord::new(EV_KEY, code, value)
}

fn press(code: u16) -> InputRecord {
    InputRecord::new(EV_KEY, code, 1)
}

fn release(code: u16) -> InputRecord {
    InputRecord::new(EV_KEY, code, 0)
}

#[test]
fn pressed_reads_the_value() {
    assert!(key(BTN_TOUCH, 1).pressed());
    assert!(key(BTN_TOUCH, 2).pressed());
    assert!(!key(BTN_TOUCH, 0).pressed());
}

#[test]
fn bindings_use_the_mouse_buttons() {
    let l = LMB.id();
    assert_eq!(l.keycode, BTN_LEFT);
    assert_eq!(l.pressed, press(BTN_LEFT));
    assert_eq!(l.released, release(BTN_LEFT));

    let m = MMB.id();
    assert_eq!(m.keycode, BTN_MIDDLE);
    assert_eq!(m.pressed, press(BTN_MIDDLE));
    assert_eq!(m.released, release(BTN_MIDDLE));

    let r = RMB.id();
    assert_eq!(r.keycode, BTN_RIGHT);
    assert_eq!(r.pressed, press(BTN_RIGHT));
    assert_eq!(r.released, release(BTN_RIGHT));
}

#[test]
fn enter_and_exit_emit_the_owned_button() {
    let ctx = Context::new();
    assert_eq!(LMB.enter(&ctx), vec![press(BTN_LEFT)]);
    assert_eq!(LMB.exit(&ctx), vec![release(BTN_LEFT)]);
    assert_eq!(MMB.enter(&ctx), vec![press(BTN_MIDDLE)]);
    assert_eq!(MMB.exit(&ctx), vec![release(BTN_MIDDLE)]);
    assert_eq!(RMB.enter(&ctx), vec![press(BTN_RIGHT)]);
    assert_eq!(RMB.exit(&ctx), vec![release(BTN_RIGHT)]);
    assert_eq!(Idle.enter(&ctx), Vec::<InputRecord>::new());
    assert_eq!(Idle.exit(&ctx), Vec::<InputRecord>::new());
}

#[test]
fn touch_down_with_first_button_wins_priority() {
    // Both modifiers latched: the first side button decides, so the
    // right-click state is picked, never the middle-click state.
    let mut ctx = Context::new();
    ctx.update_input(BTN_TOOL_PEN, 1);
    ctx.update_input(BTN_STYLUS, 1);
    ctx.update_input(BTN_STYLUS2, 1);
    ctx.update_input(BTN_TOUCH, 1);
    match Idle.update(&ctx, press(BTN_TOUCH)) {
        Transition::Change(next, out) => {
            assert_eq!(next, StylusState::RMB(RMB));
            assert!(out.is_empty());
        }
        Transition::Stay(_) => panic!("expected a state change"),
    }
}

#[test]
fn touch_down_with_second_button_picks_middle() {
    let mut ctx = Context::new();
    ctx.update_input(BTN_TOOL_PEN, 1);
    ctx.update_input(BTN_STYLUS2, 1);
    ctx.update_input(BTN_TOUCH, 1);
    match Idle.update(&ctx, press(BTN_TOUCH)) {
        Transition::Change(next, out) => {
            assert_eq!(next, StylusState::MMB(MMB));
            assert!(out.is_empty());
        }
        Transition::Stay(_) => panic!("expected a state change"),
    }
}

#[test]
fn touch_down_without_modifiers_picks_left() {
    let mut ctx = Context::new();
    ctx.update_input(BTN_TOOL_PEN, 1);
    ctx.update_input(BTN_TOUCH, 1);
    match Idle.update(&ctx, press(BTN_TOUCH)) {
        Transition::Change(next, out) => {
            assert_eq!(next, StylusState::LMB(LMB));
            assert!(out.is_empty());
        }
        Transition::Stay(_) => panic!("expected a state change"),
    }
}

#[test]
fn idle_ignores_touch_release_when_not_touching() {
    let mut ctx = Context::new();
    ctx.update_input(BTN_TOOL_PEN, 1);
    match Idle.update(&ctx, release(BTN_TOUCH)) {
        Transition::Stay(out) => assert!(out.is_empty()),
        Transition::Change(_, _) => panic!("expected no state change"),
    }
}

#[test]
fn idle_ignores_modifier_press_while_touching() {
    let mut ctx = Context::new();
    ctx.update_input(BTN_TOOL_PEN, 1);
    ctx.update_input(BTN_TOUCH, 1);
    ctx.update_input(BTN_STYLUS, 1);
    match Idle.update(&ctx, press(BTN_STYLUS)) {
        Transition::Stay(out) => assert!(out.is_empty()),
        Transition::Change(_, _) => panic!("expected no state change"),
    }
    ctx.update_input(BTN_STYLUS2, 1);
    match Idle.update(&ctx, press(BTN_STYLUS2)) {
        Transition::Stay(out) => assert!(out.is_empty()),
        Transition::Change(_, _) => panic!("expected no state change"),
    }
}

#[test]
fn every_state_falls_back_to_idle_without_proximity() {
    let ctx = Context::new();
    assert!(!ctx.pen);
    match Idle.update(&ctx, press(BTN_TOUCH)) {
        Transition::Stay(out) => assert!(out.is_empty()),
        Transition::Change(_, _) => panic!("idle stays idle"),
    }
    for t in [
        LMB.update(&ctx, press(BTN_TOUCH)),
        MMB.update(&ctx, press(BTN_TOUCH)),
        RMB.update(&ctx, press(BTN_TOUCH)),
    ] {
        match t {
            Transition::Change(next, out) => {
                assert_eq!(next, StylusState::Idle(Idle));
                assert!(out.is_empty());
            }
            Transition::Stay(_) => panic!("expected the fail-safe change"),
        }
    }
}

#[test]
fn side_button_release_toggles_right_back_to_left() {
    let mut ctx = Context::new();
    ctx.update_input(BTN_TOOL_PEN, 1);
    ctx.update_input(BTN_TOUCH, 1);
    ctx.update_input(BTN_STYLUS, 0);
    match RMB.update(&ctx, release(BTN_STYLUS)) {
        Transition::Change(next, out) => {
            assert_eq!(next, StylusState::LMB(LMB));
            assert!(out.is_empty());
        }
        Transition::Stay(_) => panic!("expected a state change"),
    }
}

#[test]
fn second_button_release_follows_remaining_modifier() {
    let mut ctx = Context::new();
    ctx.update_input(BTN_TOOL_PEN, 1);
    ctx.update_input(BTN_TOUCH, 1);
    ctx.update_input(BTN_STYLUS, 1);
    match MMB.update(&ctx, release(BTN_STYLUS2)) {
        Transition::Change(next, _) => assert_eq!(next, StylusState::RMB(RMB)),
        Transition::Stay(_) => panic!("expected a state change"),
    }
    ctx.update_input(BTN_STYLUS, 0);
    match MMB.update(&ctx, release(BTN_STYLUS2)) {
        Transition::Change(next, _) => assert_eq!(next, StylusState::LMB(LMB)),
        Transition::Stay(_) => panic!("expected a state change"),
    }
}

#[test]
fn button_states_ignore_unrelated_events() {
    let mut ctx = Context::new();
    ctx.update_input(BTN_TOOL_PEN, 1);
    ctx.update_input(BTN_TOUCH, 1);
    // A second touch-down while already touching is outside the table.
    for t in [
        LMB.update(&ctx, press(BTN_TOUCH)),
        MMB.update(&ctx, press(BTN_TOUCH)),
        RMB.update(&ctx, press(BTN_TOUCH)),
        // The right-click state has no binding for the second side button.
        RMB.update(&ctx, press(BTN_STYLUS2)),
        // The middle-click state has none for the first.
        MMB.update(&ctx, press(BTN_STYLUS)),
    ] {
        match t {
            Transition::Stay(out) => assert!(out.is_empty()),
            Transition::Change(_, _) => panic!("expected no state change"),
        }
    }
}

#[test]
fn context_latches_each_input_line() {
    let mut ctx = Context::new();
    assert!(!ctx.pen && !ctx.stylus1 && !ctx.stylus2 && !ctx.touch);
    assert_eq!((ctx.pos_x, ctx.pos_y), (0, 0));

    ctx.update_input(BTN_TOOL_PEN, 1);
    assert!(ctx.pen);
    ctx.update_input(BTN_STYLUS, 5);
    assert!(ctx.stylus1);
    ctx.update_input(BTN_STYLUS2, 1);
    assert!(ctx.stylus2);
    ctx.update_input(BTN_TOUCH, 1);
    assert!(ctx.touch);

    // A key with no associated field changes nothing.
    let before = ctx;
    ctx.update_input(30, 1);
    assert_eq!(ctx, before);

    ctx.update_input(BTN_TOOL_PEN, 0);
    assert!(!ctx.pen && ctx.stylus1 && ctx.stylus2 && ctx.touch);
}

#[test]
fn context_records_positions() {
    let mut ctx = Context::default();
    ctx.update_pos(ABS_X, 1234);
    ctx.update_pos(ABS_Y, -7);
    assert_eq!((ctx.pos_x, ctx.pos_y), (1234, -7));
    // An unrelated axis changes nothing.
    ctx.update_pos(25, 99);
    assert_eq!((ctx.pos_x, ctx.pos_y), (1234, -7));
}
