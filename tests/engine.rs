use keymouse::bindings::{
    role, Direction, MouseButton, Role, Speed, ACTIVATION_KEY, DOWN_KEY, FAST_KEY,
    LEFT_CLICK_KEY, LEFT_CLICK_TOGGLE_KEY, LEFT_KEY, MIDDLE_CLICK_KEY, RIGHT_CLICK_KEY,
    RIGHT_KEY, SCROLL_KEY, SLOW_KEY, UP_KEY,
};
use keymouse::cursor::CursorCoordinates;
use keymouse::effect::Effect;
use keymouse::focus::{resolve_focus, FocusTarget};
use keymouse::state::State;

const ROOT: u64 = 0x1e5;
const K1: u32 = 24; // q
const K2: u32 = 25; // w
const K3: u32 = 26; // e

fn synth(code: u32, pressed: bool) -> Effect {
    Effect::SynthesizeKey { code, pressed }
}

/// A fresh engine at time 0, its set-up effects discarded.
fn engine() -> State {
    State::new(ROOT, 0).0
}

/// A fresh engine put in Active mode by an activation press at time 100.
fn active_engine() -> State {
    let mut s = engine();
    assert_eq!(s.handle_key_press(ACTIVATION_KEY, 100), vec![Effect::GrabKeyboard { window: ROOT }]);
    assert!(s.is_active());
    s
}

#[test]
fn new_grabs_activation_key_and_subscribes_root() {
    let (s, effects) = State::new(ROOT, 0);
    assert_eq!(
        effects,
        vec![
            Effect::GrabKey { window: ROOT, code: ACTIVATION_KEY },
            Effect::Subscribe { window: ROOT },
        ]
    );
    assert!(!s.is_active());
    assert!(s.pending_keys().is_empty());
    assert_eq!(s.monitored_window(), ROOT);
    assert_eq!(s.rate(), 5);
}

#[test]
fn activate_mapping_is_the_d_key() {
    assert_eq!(engine().activate_mapping(), 40);
    assert_eq!(ACTIVATION_KEY, 40);
}

#[test]
fn binding_table_roles() {
    assert_eq!(role(ACTIVATION_KEY), Role::Activation);
    assert_eq!(role(SCROLL_KEY), Role::Scroll);
    assert_eq!(role(FAST_KEY), Role::Speed(Speed::Fast));
    assert_eq!(role(SLOW_KEY), Role::Speed(Speed::Slow));
    assert_eq!(role(LEFT_KEY), Role::Direction(Direction::Left));
    assert_eq!(role(DOWN_KEY), Role::Direction(Direction::Down));
    assert_eq!(role(UP_KEY), Role::Direction(Direction::Up));
    assert_eq!(role(RIGHT_KEY), Role::Direction(Direction::Right));
    assert_eq!(role(LEFT_CLICK_KEY), Role::Button(MouseButton::Left));
    assert_eq!(role(MIDDLE_CLICK_KEY), Role::Button(MouseButton::Middle));
    assert_eq!(role(RIGHT_CLICK_KEY), Role::Button(MouseButton::Right));
    assert_eq!(role(LEFT_CLICK_TOGGLE_KEY), Role::Toggle);
    assert_eq!(role(K1), Role::Unmapped);
    assert_eq!(role(0), Role::Unmapped);
    assert_eq!(role(u32::MAX), Role::Unmapped);
}

#[test]
fn unmapped_key_never_changes_mode() {
    let mut idle = engine();
    assert!(idle.handle_key_press(K1, 10).is_empty());
    assert!(!idle.is_active());
    assert!(idle.handle_key_release(K1, 20).is_empty());
    assert!(!idle.is_active());

    let mut active = active_engine();
    active.handle_key_press(K1, 110);
    assert!(active.is_active());
    active.handle_key_release(K1, 120);
    assert!(active.is_active());
}

#[test]
fn unmapped_key_passes_through_when_active() {
    let mut s = active_engine();
    assert_eq!(s.handle_key_press(K1, 110), vec![synth(K1, true)]);
    assert_eq!(s.handle_key_release(K1, 120), vec![synth(K1, false)]);
}

#[test]
fn hold_past_threshold_replays_nothing() {
    let mut s = active_engine();
    let effects = s.handle_key_release(ACTIVATION_KEY, 700);
    assert_eq!(effects, vec![Effect::UngrabKeyboard]);
    assert!(!effects.iter().any(|e| matches!(e, Effect::SynthesizeKey { .. })));
    assert!(!s.is_active());
}

#[test]
fn hold_of_exactly_the_threshold_is_a_hold() {
    let mut s = active_engine();
    assert_eq!(s.handle_key_release(ACTIVATION_KEY, 600), vec![Effect::UngrabKeyboard]);
    assert!(!s.is_active());
}

#[test]
fn hold_keeps_the_pending_buffer() {
    let mut s = engine();
    s.handle_key_press(K1, 10);
    s.handle_key_press(ACTIVATION_KEY, 20);
    s.handle_key_release(ACTIVATION_KEY, 900);
    assert_eq!(s.pending_keys(), vec![K1, ACTIVATION_KEY]);
}

#[test]
fn tap_without_buffered_keys_replays_activation_key_only() {
    let mut s = State::new(ROOT, 0).0;
    let effects = s.handle_key_release(ACTIVATION_KEY, 100);
    assert_eq!(
        effects,
        vec![
            Effect::UngrabKeyboard,
            Effect::UngrabKey { window: ROOT, code: ACTIVATION_KEY },
            synth(ACTIVATION_KEY, true),
            synth(ACTIVATION_KEY, false),
            Effect::GrabKey { window: ROOT, code: ACTIVATION_KEY },
        ]
    );
    assert!(!s.is_active());
}

#[test]
fn tap_with_one_buffered_key_replays_it() {
    let mut s = engine();
    assert!(s.handle_key_press(K1, 10).is_empty());
    assert_eq!(s.pending_keys(), vec![K1]);
    let effects = s.handle_key_release(ACTIVATION_KEY, 200);
    assert_eq!(
        effects,
        vec![
            Effect::UngrabKeyboard,
            Effect::UngrabKey { window: ROOT, code: ACTIVATION_KEY },
            synth(ACTIVATION_KEY, true),
            synth(ACTIVATION_KEY, false),
            synth(K1, false),
            synth(K1, true),
            synth(K1, false),
            Effect::GrabKey { window: ROOT, code: ACTIVATION_KEY },
        ]
    );
    let synthesized: Vec<Effect> = effects
        .into_iter()
        .filter(|e| matches!(e, Effect::SynthesizeKey { .. }))
        .collect();
    assert_eq!(
        synthesized,
        vec![
            synth(ACTIVATION_KEY, true),
            synth(ACTIVATION_KEY, false),
            synth(K1, false),
            synth(K1, true),
            synth(K1, false),
        ]
    );
    assert!(s.pending_keys().is_empty());
    assert!(!s.is_active());
}

#[test]
fn tap_with_two_buffered_keys_replays_them_in_order() {
    let mut s = engine();
    s.handle_key_press(K1, 10);
    s.handle_key_press(K2, 20);
    assert_eq!(s.handle_key_press(ACTIVATION_KEY, 30), vec![Effect::GrabKeyboard { window: ROOT }]);
    assert_eq!(s.pending_keys(), vec![K1, K2]);
    let effects = s.handle_key_release(ACTIVATION_KEY, 130);
    assert_eq!(
        effects,
        vec![
            Effect::UngrabKeyboard,
            Effect::UngrabKey { window: ROOT, code: ACTIVATION_KEY },
            synth(ACTIVATION_KEY, true),
            synth(ACTIVATION_KEY, false),
            synth(K1, false),
            synth(K1, true),
            synth(K1, false),
            synth(K2, false),
            synth(K2, true),
            synth(K2, false),
            Effect::GrabKey { window: ROOT, code: ACTIVATION_KEY },
        ]
    );
    assert!(s.pending_keys().is_empty());
    assert!(!s.is_active());
}

#[test]
fn third_pending_key_is_dropped() {
    let mut s = engine();
    s.handle_key_press(K1, 10);
    s.handle_key_press(K2, 20);
    s.handle_key_press(K3, 30);
    assert_eq!(s.pending_keys(), vec![K1, K2]);
}

#[test]
fn activation_key_is_buffered_once_the_cache_window_has_closed() {
    let mut s = engine();
    s.handle_key_press(ACTIVATION_KEY, 10);
    assert_eq!(s.pending_keys(), vec![ACTIVATION_KEY]);
}

#[test]
fn events_are_swallowed_right_after_a_tap() {
    let mut s = engine();
    s.handle_key_press(ACTIVATION_KEY, 10);
    s.handle_key_release(ACTIVATION_KEY, 50);
    // Both debounce windows opened at 50 and close at 55.
    assert!(s.handle_key_press(ACTIVATION_KEY, 52).is_empty());
    assert!(!s.is_active());
    assert!(s.pending_keys().is_empty());
    assert!(s.handle_key_release(ACTIVATION_KEY, 54).is_empty());
    assert!(s.handle_key_press(K1, 54).is_empty());
    assert_eq!(s.pending_keys(), vec![K1]);
    assert_eq!(s.handle_key_press(ACTIVATION_KEY, 55), vec![Effect::GrabKeyboard { window: ROOT }]);
    assert!(s.is_active());
}

#[test]
fn events_right_after_creation_are_swallowed() {
    let mut s = engine();
    assert!(s.handle_key_press(ACTIVATION_KEY, 4).is_empty());
    assert!(!s.is_active());
    assert_eq!(s.handle_key_press(ACTIVATION_KEY, 5), vec![Effect::GrabKeyboard { window: ROOT }]);
}

#[test]
fn remap_keys_do_nothing_when_idle() {
    let mut s = engine();
    for code in [LEFT_KEY, DOWN_KEY, UP_KEY, RIGHT_KEY, FAST_KEY, SLOW_KEY, SCROLL_KEY,
        LEFT_CLICK_KEY, MIDDLE_CLICK_KEY, RIGHT_CLICK_KEY, LEFT_CLICK_TOGGLE_KEY]
    {
        assert!(s.handle_key_press(code, 10).is_empty());
        assert!(s.handle_key_release(code, 11).is_empty());
    }
    assert!(!s.is_active());
    assert!(!s.left_click_toggled());
    assert_eq!(s.rate(), 5);
}

#[test]
fn single_direction_moves_at_base_rate() {
    let mut s = active_engine();
    assert_eq!(s.handle_key_press(LEFT_KEY, 110), vec![Effect::MovePointer { dx: -5, dy: 0 }]);
    assert!(s.handle_key_release(LEFT_KEY, 120).is_empty());
    assert_eq!(s.handle_key_press(DOWN_KEY, 130), vec![Effect::MovePointer { dx: 0, dy: 5 }]);
    assert!(s.handle_key_release(DOWN_KEY, 140).is_empty());
    assert_eq!(s.handle_key_press(UP_KEY, 150), vec![Effect::MovePointer { dx: 0, dy: -5 }]);
    assert!(s.handle_key_release(UP_KEY, 160).is_empty());
    assert_eq!(s.handle_key_press(RIGHT_KEY, 170), vec![Effect::MovePointer { dx: 5, dy: 0 }]);
    assert!(s.handle_key_release(RIGHT_KEY, 180).is_empty());
}

#[test]
fn left_then_down_moves_diagonally() {
    let mut s = active_engine();
    assert_eq!(s.handle_key_press(LEFT_KEY, 110), vec![Effect::MovePointer { dx: -5, dy: 0 }]);
    let effects = s.handle_key_press(DOWN_KEY, 120);
    assert_eq!(effects, vec![Effect::MovePointer { dx: -5, dy: 5 }]);
    // Releasing Left leaves Down held.
    assert_eq!(s.handle_key_release(LEFT_KEY, 130), vec![Effect::MovePointer { dx: 0, dy: 5 }]);
}

#[test]
fn other_diagonals() {
    let mut s = active_engine();
    s.handle_key_press(LEFT_KEY, 110);
    assert_eq!(s.handle_key_press(UP_KEY, 120), vec![Effect::MovePointer { dx: -5, dy: -5 }]);
    s.handle_key_release(LEFT_KEY, 130);
    assert_eq!(s.handle_key_press(RIGHT_KEY, 140), vec![Effect::MovePointer { dx: 5, dy: -5 }]);
    s.handle_key_release(UP_KEY, 150);
    assert_eq!(s.handle_key_press(DOWN_KEY, 160), vec![Effect::MovePointer { dx: 5, dy: 5 }]);
}

#[test]
fn diagonal_wins_over_scroll() {
    let mut s = active_engine();
    s.handle_key_press(SCROLL_KEY, 105);
    s.handle_key_press(LEFT_KEY, 110);
    assert_eq!(s.handle_key_press(DOWN_KEY, 120), vec![Effect::MovePointer { dx: -5, dy: 5 }]);
}

#[test]
fn scroll_modifier_scrolls_instead_of_moving() {
    let mut s = active_engine();
    assert!(s.handle_key_press(SCROLL_KEY, 105).is_empty());
    assert_eq!(
        s.handle_key_press(DOWN_KEY, 110),
        vec![Effect::Scroll { direction: Direction::Down, pressed: true }]
    );
    assert!(s.handle_key_release(DOWN_KEY, 120).is_empty());
    assert_eq!(
        s.handle_key_press(LEFT_KEY, 130),
        vec![Effect::Scroll { direction: Direction::Left, pressed: true }]
    );
    s.handle_key_release(LEFT_KEY, 135);
    assert_eq!(
        s.handle_key_press(UP_KEY, 140),
        vec![Effect::Scroll { direction: Direction::Up, pressed: true }]
    );
    s.handle_key_release(UP_KEY, 145);
    assert_eq!(
        s.handle_key_press(RIGHT_KEY, 150),
        vec![Effect::Scroll { direction: Direction::Right, pressed: true }]
    );
    s.handle_key_release(SCROLL_KEY, 155);
    assert_eq!(s.handle_key_release(RIGHT_KEY, 160), Vec::<Effect>::new());
}

#[test]
fn scroll_release_reports_release_while_other_direction_held() {
    let mut s = active_engine();
    s.handle_key_press(SCROLL_KEY, 105);
    s.handle_key_press(UP_KEY, 110);
    s.handle_key_press(DOWN_KEY, 115);
    assert_eq!(
        s.handle_key_release(DOWN_KEY, 120),
        vec![Effect::Scroll { direction: Direction::Up, pressed: false }]
    );
}

#[test]
fn fast_and_slow_together_give_fast_rate() {
    let mut s = active_engine();
    s.handle_key_press(FAST_KEY, 105);
    s.handle_key_press(SLOW_KEY, 106);
    assert_eq!(s.rate(), 10);
    assert_eq!(s.handle_key_press(RIGHT_KEY, 110), vec![Effect::MovePointer { dx: 10, dy: 0 }]);
}

#[test]
fn slow_alone_halves_rate() {
    let mut s = active_engine();
    s.handle_key_press(SLOW_KEY, 105);
    assert_eq!(s.rate(), 2);
    assert_eq!(s.handle_key_press(UP_KEY, 110), vec![Effect::MovePointer { dx: 0, dy: -2 }]);
    s.handle_key_release(SLOW_KEY, 115);
    assert_eq!(s.rate(), 5);
}

#[test]
fn mouse_buttons_follow_their_keys() {
    let mut s = active_engine();
    let cases = [
        (LEFT_CLICK_KEY, MouseButton::Left),
        (MIDDLE_CLICK_KEY, MouseButton::Middle),
        (RIGHT_CLICK_KEY, MouseButton::Right),
    ];
    for (code, button) in cases {
        assert_eq!(s.handle_key_press(code, 110), vec![Effect::SetButton { button, pressed: true }]);
        assert_eq!(s.handle_key_release(code, 120), vec![Effect::SetButton { button, pressed: false }]);
    }
}

#[test]
fn double_toggle_clicks_once() {
    let mut s = active_engine();
    assert_eq!(
        s.handle_key_press(LEFT_CLICK_TOGGLE_KEY, 110),
        vec![Effect::SetButton { button: MouseButton::Left, pressed: true }]
    );
    assert!(s.left_click_toggled());
    assert!(s.handle_key_release(LEFT_CLICK_TOGGLE_KEY, 120).is_empty());
    assert_eq!(
        s.handle_key_press(LEFT_CLICK_TOGGLE_KEY, 130),
        vec![Effect::SetButton { button: MouseButton::Left, pressed: false }]
    );
    assert!(s.handle_key_release(LEFT_CLICK_TOGGLE_KEY, 140).is_empty());
    assert!(!s.left_click_toggled());
}

#[test]
fn focus_moves_from_root_to_window() {
    let mut s = engine();
    assert_eq!(s.handle_focus_change(FocusTarget::Window(7)), vec![Effect::Subscribe { window: 7 }]);
    assert_eq!(s.monitored_window(), 7);
}

#[test]
fn focus_moves_between_windows() {
    let mut s = engine();
    s.handle_focus_change(FocusTarget::Window(7));
    assert_eq!(
        s.handle_focus_change(FocusTarget::Window(9)),
        vec![Effect::Unsubscribe { window: 7 }, Effect::Subscribe { window: 9 }]
    );
    assert_eq!(s.monitored_window(), 9);
}

#[test]
fn focus_on_the_same_window_changes_nothing() {
    let mut s = engine();
    s.handle_focus_change(FocusTarget::Window(7));
    assert!(s.handle_focus_change(FocusTarget::Window(7)).is_empty());
    assert_eq!(s.monitored_window(), 7);
}

#[test]
fn pointer_root_focus_means_the_root_window() {
    assert_eq!(resolve_focus(ROOT, FocusTarget::PointerRoot), ROOT);
    assert_eq!(resolve_focus(ROOT, FocusTarget::Window(3)), 3);
    let mut s = engine();
    s.handle_focus_change(FocusTarget::Window(7));
    assert_eq!(
        s.handle_focus_change(FocusTarget::PointerRoot),
        vec![Effect::Unsubscribe { window: 7 }, Effect::Subscribe { window: ROOT }]
    );
    assert_eq!(s.monitored_window(), ROOT);
    assert!(s.handle_focus_change(FocusTarget::PointerRoot).is_empty());
}

#[test]
fn shutdown_while_active_releases_both_grabs_once() {
    let s = active_engine();
    let effects = s.shutdown();
    assert_eq!(
        effects,
        vec![Effect::UngrabKeyboard, Effect::UngrabKey { window: ROOT, code: ACTIVATION_KEY }]
    );
    let releases = effects
        .iter()
        .filter(|e| **e == Effect::UngrabKey { window: ROOT, code: ACTIVATION_KEY })
        .count();
    assert_eq!(releases, 1);
}

#[test]
fn shutdown_while_idle_releases_activation_grab() {
    assert_eq!(
        engine().shutdown(),
        vec![Effect::UngrabKey { window: ROOT, code: ACTIVATION_KEY }]
    );
}

#[test]
fn cursor_coordinates() {
    let c = CursorCoordinates::new(3, 4);
    assert_eq!((c.x(), c.y()), (3, 4));
    let r = CursorCoordinates::from_root_position(640, 480);
    assert_eq!((r.x(), r.y()), (640, 480));
    let n = CursorCoordinates::from_root_position(-1, 0);
    assert_eq!((n.x(), n.y()), (u32::MAX, 0));
}

#[test]
fn clock_going_backwards_counts_as_no_time() {
    let mut s = active_engine();
    // Released "before" it was pressed: held for zero time, so a tap.
    let effects = s.handle_key_release(ACTIVATION_KEY, 50);
    assert_eq!(effects[0], Effect::UngrabKeyboard);
    assert_eq!(effects[1], Effect::UngrabKey { window: ROOT, code: ACTIVATION_KEY });
}
