//! Properties of the engine that span several events or hold of every input.
use vstd::prelude::*;
use crate::bindings::{
    role_of, MouseButton, Role, ACTIVATION_KEY, DOWN_KEY, LEFT_CLICK_TOGGLE_KEY, LEFT_KEY,
};
use crate::effect::Effect;
use crate::focus::FocusTarget;
use crate::model::{
    cooling_down, elapsed, EngineView, BASE_RATE, HOLD_THRESHOLD_MS, PENDING_CAPACITY,
};

verus! {

/// How many times `e` occurs in `effects`.
pub open spec fn occurrences(effects: Seq<Effect>, e: Effect) -> nat
    decreases effects.len(),
{
    if effects.len() == 0 {
        0
    } else {
        occurrences(effects.drop_last(), e) + if effects.last() == e {
            1nat
        } else {
            0nat
        }
    }
}

/// Whether `effects` holds no synthesized key event.
pub open spec fn synthesizes_nothing(effects: Seq<Effect>) -> bool {
    forall|i: int| 0 <= i < effects.len() ==> !(#[trigger] effects[i] is SynthesizeKey)
}

/// Events on a key code with no role in the binding table never change the
/// mode.
pub proof fn unmapped_key_keeps_mode(s: EngineView, code: u32, now: u64)
    requires
        role_of(code) == Role::Unmapped,
    ensures
        s.key_press(code, now).0.active == s.active,
        s.key_release(code, now).0.active == s.active,
{
}

/// Pressing the activation key (outside the debounce window, so that the
/// press is handled) and releasing it after the hold threshold synthesizes no
/// key event and leaves the engine Idle.
pub proof fn hold_then_release_replays_nothing(s: EngineView, pressed_at: u64, released_at: u64)
    requires
        !cooling_down(s.activate_cooldown_start, pressed_at),
        released_at >= pressed_at + HOLD_THRESHOLD_MS,
    ensures
        ({
            let held = s.key_press(ACTIVATION_KEY, pressed_at).0;
            let (after, effects) = held.key_release(ACTIVATION_KEY, released_at);
            &&& held.active
            &&& !after.active
            &&& effects == seq![Effect::UngrabKeyboard]
            &&& synthesizes_nothing(effects)
        }),
{
    let held = s.key_press(ACTIVATION_KEY, pressed_at).0;
    let effects = held.key_release(ACTIVATION_KEY, released_at).1;
    assert forall|i: int| 0 <= i < effects.len() implies !(#[trigger] effects[i] is SynthesizeKey) by {
        assert(effects[i] == Effect::UngrabKeyboard);
    }
}

/// Releasing the activation key before the hold threshold with one buffered
/// key replays the activation key's press and release, then that key's
/// release, press and release, and empties the buffer.
pub proof fn tap_replays_one_buffered_key(s: EngineView, k1: u32, now: u64)
    requires
        s.pending == seq![k1],
        !cooling_down(s.activate_cooldown_start, now),
        elapsed(s.activation_pressed_at, now) < HOLD_THRESHOLD_MS,
    ensures
        ({
            let (after, effects) = s.key_release(ACTIVATION_KEY, now);
            &&& !after.active
            &&& after.pending.len() == 0
            &&& effects == seq![
                Effect::UngrabKeyboard,
                Effect::UngrabKey { window: s.window, code: ACTIVATION_KEY },
                Effect::SynthesizeKey { code: ACTIVATION_KEY, pressed: true },
                Effect::SynthesizeKey { code: ACTIVATION_KEY, pressed: false },
                Effect::SynthesizeKey { code: k1, pressed: false },
                Effect::SynthesizeKey { code: k1, pressed: true },
                Effect::SynthesizeKey { code: k1, pressed: false },
                Effect::GrabKey { window: s.window, code: ACTIVATION_KEY },
            ]
        }),
{
    let keys = seq![k1];
    reveal_with_fuel(crate::model::replay_of, 2);
    assert(keys.drop_last() =~= Seq::<u32>::empty());
    assert(s.key_release(ACTIVATION_KEY, now).1 =~= seq![
        Effect::UngrabKeyboard,
        Effect::UngrabKey { window: s.window, code: ACTIVATION_KEY },
        Effect::SynthesizeKey { code: ACTIVATION_KEY, pressed: true },
        Effect::SynthesizeKey { code: ACTIVATION_KEY, pressed: false },
        Effect::SynthesizeKey { code: k1, pressed: false },
        Effect::SynthesizeKey { code: k1, pressed: true },
        Effect::SynthesizeKey { code: k1, pressed: false },
        Effect::GrabKey { window: s.window, code: ACTIVATION_KEY },
    ]);
}

/// Releasing the activation key before the hold threshold with two buffered
/// keys replays both in full, oldest first, and empties the buffer.
pub proof fn tap_replays_buffered_keys_in_order(s: EngineView, k1: u32, k2: u32, now: u64)
    requires
        s.pending == seq![k1, k2],
        !cooling_down(s.activate_cooldown_start, now),
        elapsed(s.activation_pressed_at, now) < HOLD_THRESHOLD_MS,
    ensures
        ({
            let (after, effects) = s.key_release(ACTIVATION_KEY, now);
            &&& !after.active
            &&& after.pending.len() == 0
            &&& effects == seq![
                Effect::UngrabKeyboard,
                Effect::UngrabKey { window: s.window, code: ACTIVATION_KEY },
                Effect::SynthesizeKey { code: ACTIVATION_KEY, pressed: true },
                Effect::SynthesizeKey { code: ACTIVATION_KEY, pressed: false },
                Effect::SynthesizeKey { code: k1, pressed: false },
                Effect::SynthesizeKey { code: k1, pressed: true },
                Effect::SynthesizeKey { code: k1, pressed: false },
                Effect::SynthesizeKey { code: k2, pressed: false },
                Effect::SynthesizeKey { code: k2, pressed: true },
                Effect::SynthesizeKey { code: k2, pressed: false },
                Effect::GrabKey { window: s.window, code: ACTIVATION_KEY },
            ]
        }),
{
    let keys = seq![k1, k2];
    reveal_with_fuel(crate::model::replay_of, 3);
    assert(keys.drop_last() =~= seq![k1]);
    assert(keys.drop_last().drop_last() =~= Seq::<u32>::empty());
    assert(crate::model::replay_of(seq![k1]) =~= crate::model::key_replay(k1));
    assert(crate::model::replay_of(keys) =~= crate::model::key_replay(k1)
        + crate::model::key_replay(k2));
    assert(s.key_release(ACTIVATION_KEY, now).1 =~= seq![
        Effect::UngrabKeyboard,
        Effect::UngrabKey { window: s.window, code: ACTIVATION_KEY },
        Effect::SynthesizeKey { code: ACTIVATION_KEY, pressed: true },
        Effect::SynthesizeKey { code: ACTIVATION_KEY, pressed: false },
        Effect::SynthesizeKey { code: k1, pressed: false },
        Effect::SynthesizeKey { code: k1, pressed: true },
        Effect::SynthesizeKey { code: k1, pressed: false },
        Effect::SynthesizeKey { code: k2, pressed: false },
        Effect::SynthesizeKey { code: k2, pressed: true },
        Effect::SynthesizeKey { code: k2, pressed: false },
        Effect::GrabKey { window: s.window, code: ACTIVATION_KEY },
    ]);
}

/// In Active mode without the scroll modifier, pressing Left and then Down
/// moves the pointer once, diagonally: left and down by the same amount.
pub proof fn left_then_down_moves_diagonally(s: EngineView, t1: u64, t2: u64)
    requires
        s.active,
        !s.scroll,
        !cooling_down(s.activate_cooldown_start, t1),
        t1 <= t2,
    ensures
        ({
            let s1 = s.key_press(LEFT_KEY, t1).0;
            let effects = s1.key_press(DOWN_KEY, t2).1;
            &&& effects.len() == 1
            &&& effects[0] matches Effect::MovePointer { dx, dy } && dx == -dy && dy == s.rate()
            &&& s.rate() > 0
        }),
{
}

/// In Active mode, pressing the toggle key twice (releasing it in between and
/// after) presses the sticky left button and then releases it, and leaves
/// the sticky state as it was.
pub proof fn double_toggle_clicks_once(s: EngineView, t1: u64, t2: u64, t3: u64, t4: u64)
    requires
        s.active,
        !cooling_down(s.activate_cooldown_start, t1),
        t1 <= t2 <= t3 <= t4,
    ensures
        ({
            let (s1, e1) = s.key_press(LEFT_CLICK_TOGGLE_KEY, t1);
            let (s2, e2) = s1.key_release(LEFT_CLICK_TOGGLE_KEY, t2);
            let (s3, e3) = s2.key_press(LEFT_CLICK_TOGGLE_KEY, t3);
            let (s4, e4) = s3.key_release(LEFT_CLICK_TOGGLE_KEY, t4);
            &&& e1 == seq![Effect::SetButton { button: MouseButton::Left, pressed: !s.toggle }]
            &&& e2 == Seq::<Effect>::empty()
            &&& e3 == seq![Effect::SetButton { button: MouseButton::Left, pressed: s.toggle }]
            &&& e4 == Seq::<Effect>::empty()
            &&& s4.toggle == s.toggle
            &&& s4.active
        }),
{
}

/// With both speed modifiers held, Fast wins: the rate is twice the base.
pub proof fn fast_wins_over_slow(s: EngineView)
    requires
        s.fast,
        s.slow,
    ensures
        s.rate() == 2 * BASE_RATE,
{
}

/// A focus change to a window W2 other than the root and the monitored
/// window W1 unsubscribes W1 once (unless it is the root) and subscribes W2
/// once.
pub proof fn focus_change_moves_subscription(s: EngineView, w2: u64)
    requires
        w2 != s.window,
        w2 != s.monitored,
    ensures
        ({
            let (after, effects) = s.focus_change(FocusTarget::Window(w2));
            &&& after.monitored == w2
            &&& s.monitored != s.window ==> effects == seq![
                Effect::Unsubscribe { window: s.monitored },
                Effect::Subscribe { window: w2 },
            ]
            &&& s.monitored == s.window ==> effects == seq![Effect::Subscribe { window: w2 }]
        }),
{
}

/// Destroying the engine releases the activation key grab exactly once, and,
/// in Active mode, the keyboard grab exactly once.
pub proof fn shutdown_releases_grabs_once(s: EngineView)
    ensures
        occurrences(
            s.shutdown_effects(),
            Effect::UngrabKey { window: s.window, code: ACTIVATION_KEY },
        ) == 1,
        s.active ==> occurrences(s.shutdown_effects(), Effect::UngrabKeyboard) == 1,
{
    let e = s.shutdown_effects();
    let ungrab_key = Effect::UngrabKey { window: s.window, code: ACTIVATION_KEY };
    reveal_with_fuel(occurrences, 3);
    if s.active {
        assert(e.drop_last() =~= seq![Effect::UngrabKeyboard]);
        assert(e.drop_last().drop_last() =~= Seq::<Effect>::empty());
        assert(occurrences(e.drop_last().drop_last(), ungrab_key) == 0);
        assert(occurrences(e.drop_last(), ungrab_key) == 0);
        assert(occurrences(e.drop_last(), Effect::UngrabKeyboard) == 1);
    } else {
        assert(e.drop_last() =~= Seq::<Effect>::empty());
        assert(occurrences(e.drop_last(), ungrab_key) == 0);
    }
}

/// No event lets the pending buffer grow past its capacity.
pub proof fn pending_stays_within_capacity(s: EngineView, code: u32, now: u64, target: FocusTarget)
    requires
        s.pending.len() <= PENDING_CAPACITY,
    ensures
        s.key_press(code, now).0.pending.len() <= PENDING_CAPACITY,
        s.key_release(code, now).0.pending.len() <= PENDING_CAPACITY,
        s.focus_change(target).0.pending.len() <= PENDING_CAPACITY,
{
}

} // verus!
