//! The remapping engine: one owned state, driven one event at a time.
use vstd::prelude::*;
use crate::bindings::{role, Direction, MouseButton, Role, Speed, ACTIVATION_KEY};
use crate::effect::Effect;
use crate::focus::{resolve_focus, FocusTarget};
use crate::model::{
    elapsed, key_replay, replay_of, EngineView, BASE_RATE, DEBOUNCE_MS, HOLD_THRESHOLD_MS,
    PENDING_CAPACITY,
};

verus! {

/// Milliseconds from `start` to `now`; zero if `now` is earlier.
fn elapsed_ms(start: u64, now: u64) -> (r: u64)
    ensures
        r == elapsed(start, now),
{
    if now >= start {
        now - start
    } else {
        0
    }
}

/// The remapping engine.
///
/// Each event handler takes the event and the current time in milliseconds
/// and returns the display-server operations to perform, in order. The host
/// performs them before it hands over the next event.
pub struct State {
    window: u64,
    monitored: u64,
    active: bool,
    fast_pressed: bool,
    slow_pressed: bool,
    scroll_pressed: bool,
    left_pressed: bool,
    down_pressed: bool,
    up_pressed: bool,
    right_pressed: bool,
    left_click_pressed: bool,
    middle_click_pressed: bool,
    right_click_pressed: bool,
    left_click_toggle: bool,
    cached_keys: Vec<u32>,
    active_last_pressed: u64,
    sleep_activate_start: u64,
    sleep_cache_start: u64,
}

impl View for State {
    type V = EngineView;

    closed spec fn view(&self) -> EngineView {
        EngineView {
            window: self.window,
            monitored: self.monitored,
            active: self.active,
            fast: self.fast_pressed,
            slow: self.slow_pressed,
            scroll: self.scroll_pressed,
            left: self.left_pressed,
            down: self.down_pressed,
            up: self.up_pressed,
            right: self.right_pressed,
            left_click: self.left_click_pressed,
            middle_click: self.middle_click_pressed,
            right_click: self.right_click_pressed,
            toggle: self.left_click_toggle,
            pending: self.cached_keys@,
            activation_pressed_at: self.active_last_pressed,
            activate_cooldown_start: self.sleep_activate_start,
            cache_cooldown_start: self.sleep_cache_start,
        }
    }
}

impl State {
    /// Creates an engine on root window `window` at time `now`, together with
    /// the operations that set it up.
    pub fn new(window: u64, now: u64) -> (r: (State, Vec<Effect>))
        ensures
            r.0@ == EngineView::initial(window, now),
            r.1@ == EngineView::initial_effects(window),
    {
        let state = State {
            window,
            monitored: window,
            active: false,
            fast_pressed: false,
            slow_pressed: false,
            scroll_pressed: false,
            left_pressed: false,
            down_pressed: false,
            up_pressed: false,
            right_pressed: false,
            left_click_pressed: false,
            middle_click_pressed: false,
            right_click_pressed: false,
            left_click_toggle: false,
            cached_keys: Vec::new(),
            active_last_pressed: now,
            sleep_activate_start: now,
            sleep_cache_start: now,
        };
        let effects = vec![
            Effect::GrabKey { window, code: ACTIVATION_KEY },
            Effect::Subscribe { window },
        ];
        proof {
            assert(state@ =~= EngineView::initial(window, now));
            assert(effects@ =~= EngineView::initial_effects(window));
        }
        (state, effects)
    }

    /// The key code of the activation key.
    pub fn activate_mapping(&self) -> (r: u32)
        ensures
            r == ACTIVATION_KEY,
    {
        ACTIVATION_KEY
    }

    /// Whether the engine is in Active mode.
    pub fn is_active(&self) -> (r: bool)
        ensures
            r == self@.active,
    {
        self.active
    }

    /// The keys waiting in the pending buffer, oldest first.
    pub fn pending_keys(&self) -> (r: Vec<u32>)
        ensures
            r@ == self@.pending,
    {
        self.cached_keys.clone()
    }

    /// The window whose events the engine currently selects.
    pub fn monitored_window(&self) -> (r: u64)
        ensures
            r == self@.monitored,
    {
        self.monitored
    }

    /// Whether the sticky left button is down.
    pub fn left_click_toggled(&self) -> (r: bool)
        ensures
            r == self@.toggle,
    {
        self.left_click_toggle
    }

    /// The effective pointer rate for the speed modifiers now held.
    pub fn rate(&self) -> (r: i32)
        ensures
            r == self@.rate(),
    {
        if self.fast_pressed {
            BASE_RATE * 2
        } else if self.slow_pressed {
            BASE_RATE / 2
        } else {
            BASE_RATE
        }
    }
}

impl State {
    /// The pointer action for the current direction flags.
    fn motion(&self, pressed: bool) -> (r: Vec<Effect>)
        ensures
            r@ == self@.motion(pressed),
    {
        let r = self.rate();
        let minus_r = -r;
        let effects = if self.left_pressed && self.down_pressed {
            vec![Effect::MovePointer { dx: minus_r, dy: r }]
        } else if self.left_pressed && self.up_pressed {
            vec![Effect::MovePointer { dx: minus_r, dy: minus_r }]
        } else if self.right_pressed && self.down_pressed {
            vec![Effect::MovePointer { dx: r, dy: r }]
        } else if self.right_pressed && self.up_pressed {
            vec![Effect::MovePointer { dx: r, dy: minus_r }]
        } else if self.scroll_pressed && self.left_pressed {
            vec![Effect::Scroll { direction: Direction::Left, pressed }]
        } else if self.scroll_pressed && self.down_pressed {
            vec![Effect::Scroll { direction: Direction::Down, pressed }]
        } else if self.scroll_pressed && self.up_pressed {
            vec![Effect::Scroll { direction: Direction::Up, pressed }]
        } else if self.scroll_pressed && self.right_pressed {
            vec![Effect::Scroll { direction: Direction::Right, pressed }]
        } else if self.left_pressed {
            vec![Effect::MovePointer { dx: minus_r, dy: 0 }]
        } else if self.down_pressed {
            vec![Effect::MovePointer { dx: 0, dy: r }]
        } else if self.up_pressed {
            vec![Effect::MovePointer { dx: 0, dy: minus_r }]
        } else if self.right_pressed {
            vec![Effect::MovePointer { dx: r, dy: 0 }]
        } else {
            Vec::new()
        };
        proof {
            assert(effects@ =~= self@.motion(pressed));
        }
        effects
    }

    fn handle_direction(&mut self, direction: Direction, pressed: bool) -> (r: Vec<Effect>)
        ensures
            (final(self)@, r@) == old(self)@.direction_step(direction, pressed),
    {
        match direction {
            Direction::Left => self.left_pressed = pressed,
            Direction::Down => self.down_pressed = pressed,
            Direction::Up => self.up_pressed = pressed,
            Direction::Right => self.right_pressed = pressed,
        }
        proof {
            assert(self@ =~= old(self)@.with_direction(direction, pressed));
        }
        self.motion(pressed)
    }

    fn handle_speed(&mut self, speed: Speed, pressed: bool)
        ensures
            final(self)@ == old(self)@.with_speed(speed, pressed),
    {
        match speed {
            Speed::Fast => self.fast_pressed = pressed,
            Speed::Slow => self.slow_pressed = pressed,
        }
        proof {
            assert(self@ =~= old(self)@.with_speed(speed, pressed));
        }
    }

    fn handle_scroll(&mut self, pressed: bool)
        ensures
            final(self)@ == (EngineView { scroll: pressed, ..old(self)@ }),
    {
        self.scroll_pressed = pressed;
        proof {
            assert(self@ =~= (EngineView { scroll: pressed, ..old(self)@ }));
        }
    }

    fn handle_click(&mut self, button: MouseButton, pressed: bool) -> (r: Vec<Effect>)
        ensures
            final(self)@ == old(self)@.with_button(button, pressed),
            r@ == seq![Effect::SetButton { button, pressed }],
    {
        match button {
            MouseButton::Left => self.left_click_pressed = pressed,
            MouseButton::Middle => self.middle_click_pressed = pressed,
            MouseButton::Right => self.right_click_pressed = pressed,
        }
        proof {
            assert(self@ =~= old(self)@.with_button(button, pressed));
        }
        let effects = vec![Effect::SetButton { button, pressed }];
        proof {
            assert(effects@ =~= seq![Effect::SetButton { button, pressed }]);
        }
        effects
    }

    fn handle_left_click_toggle(&mut self, pressed: bool) -> (r: Vec<Effect>)
        ensures
            (final(self)@, r@) == old(self)@.toggle_step(pressed),
    {
        if !pressed {
            return Vec::new();
        }
        self.left_click_toggle = !self.left_click_toggle;
        let effects = vec![
            Effect::SetButton { button: MouseButton::Left, pressed: self.left_click_toggle },
        ];
        proof {
            assert(self@ =~= old(self)@.toggle_step(pressed).0);
            assert(effects@ =~= old(self)@.toggle_step(pressed).1);
        }
        effects
    }

    /// A key other than the activation key, in Active mode.
    fn remap(&mut self, code: u32, pressed: bool) -> (r: Vec<Effect>)
        ensures
            (final(self)@, r@) == old(self)@.remap(code, pressed),
    {
        match role(code) {
            Role::Direction(d) => self.handle_direction(d, pressed),
            Role::Speed(sp) => {
                self.handle_speed(sp, pressed);
                Vec::new()
            },
            Role::Scroll => {
                self.handle_scroll(pressed);
                Vec::new()
            },
            Role::Button(b) => self.handle_click(b, pressed),
            Role::Toggle => self.handle_left_click_toggle(pressed),
            Role::Unmapped => {
                let effects = vec![Effect::SynthesizeKey { code, pressed }];
                proof {
                    assert(effects@ =~= seq![Effect::SynthesizeKey { code, pressed }]);
                }
                effects
            },
            Role::Activation => Vec::new(),
        }
    }

    /// Whether the activation window, opened by the last tap, is still open.
    fn check_activate_sleep(&self, now: u64) -> (r: bool)
        ensures
            r == crate::model::cooling_down(self@.activate_cooldown_start, now),
    {
        elapsed_ms(self.sleep_activate_start, now) < DEBOUNCE_MS
    }

    /// Whether the cache window, opened by the last tap, is still open.
    fn check_cache_sleep(&self, now: u64) -> (r: bool)
        ensures
            r == crate::model::cooling_down(self@.cache_cooldown_start, now),
    {
        elapsed_ms(self.sleep_cache_start, now) < DEBOUNCE_MS
    }

    /// Whether the activation key, released at `now`, was held long enough.
    fn check_activate_threshold(&self, now: u64) -> (r: bool)
        ensures
            r == (elapsed(self@.activation_pressed_at, now) >= HOLD_THRESHOLD_MS),
    {
        elapsed_ms(self.active_last_pressed, now) >= HOLD_THRESHOLD_MS
    }

    /// Appends the replay of every buffered key to `effects`, oldest first.
    fn replay_cached_keys(&self, effects: &mut Vec<Effect>)
        ensures
            final(effects)@ == old(effects)@ + replay_of(self@.pending),
    {
        let ghost keys = self.cached_keys@;
        let mut i: usize = 0;
        while i < self.cached_keys.len()
            invariant
                keys == self.cached_keys@,
                i <= keys.len(),
                effects@ == old(effects)@ + replay_of(keys.take(i as int)),
            decreases keys.len() - i,
        {
            let code = self.cached_keys[i];
            let ghost before = effects@;
            effects.push(Effect::SynthesizeKey { code, pressed: false });
            effects.push(Effect::SynthesizeKey { code, pressed: true });
            effects.push(Effect::SynthesizeKey { code, pressed: false });
            proof {
                let next = keys.take(i + 1);
                assert(next.drop_last() =~= keys.take(i as int));
                assert(next.last() == code);
                assert(effects@ =~= before + key_replay(code));
                assert(effects@ =~= old(effects)@ + replay_of(next));
            }
            i = i + 1;
        }
        proof {
            assert(keys.take(keys.len() as int) =~= keys);
        }
    }

    /// The activation key changes state at `now`.
    fn handle_active(&mut self, pressed: bool, now: u64) -> (r: Vec<Effect>)
        ensures
            pressed ==> (final(self)@, r@) == old(self)@.activation_press(now),
            !pressed ==> (final(self)@, r@) == old(self)@.activation_release(now),
    {
        if pressed {
            let effects = vec![Effect::GrabKeyboard { window: self.window }];
            self.active_last_pressed = now;
            self.active = true;
            proof {
                assert(self@ =~= old(self)@.activation_press(now).0);
                assert(effects@ =~= old(self)@.activation_press(now).1);
            }
            return effects;
        }
        let mut effects = vec![Effect::UngrabKeyboard];
        if !self.check_activate_threshold(now) {
            effects.push(Effect::UngrabKey { window: self.window, code: ACTIVATION_KEY });
            self.sleep_activate_start = now;
            self.sleep_cache_start = now;
            effects.push(Effect::SynthesizeKey { code: ACTIVATION_KEY, pressed: true });
            effects.push(Effect::SynthesizeKey { code: ACTIVATION_KEY, pressed: false });
            self.replay_cached_keys(&mut effects);
            self.cached_keys = Vec::new();
            effects.push(Effect::GrabKey { window: self.window, code: ACTIVATION_KEY });
        }
        self.active = false;
        proof {
            assert(self@ =~= old(self)@.activation_release(now).0);
            assert(effects@ =~= old(self)@.activation_release(now).1);
        }
        effects
    }

    /// Offers `code` to the pending buffer.
    fn cache_key(&mut self, code: u32)
        ensures
            final(self)@ == (EngineView {
                pending: crate::model::buffered(old(self)@.pending, code),
                ..old(self)@
            }),
    {
        if self.cached_keys.len() < PENDING_CAPACITY {
            self.cached_keys.push(code);
        }
        proof {
            assert(self@ =~= (EngineView {
                pending: crate::model::buffered(old(self)@.pending, code),
                ..old(self)@
            }));
        }
    }

    fn dispatch(&mut self, code: u32, pressed: bool, now: u64) -> (r: Vec<Effect>)
        ensures
            (final(self)@, r@) == old(self)@.dispatch(code, pressed, now),
    {
        if code == ACTIVATION_KEY {
            self.handle_active(pressed, now)
        } else if self.active {
            self.remap(code, pressed)
        } else {
            Vec::new()
        }
    }

    /// Handles a key press at time `now` and returns what to perform.
    pub fn handle_key_press(&mut self, code: u32, now: u64) -> (r: Vec<Effect>)
        ensures
            (final(self)@, r@) == old(self)@.key_press(code, now),
    {
        if code != ACTIVATION_KEY || !self.check_cache_sleep(now) {
            self.cache_key(code);
        }
        if self.check_activate_sleep(now) {
            return Vec::new();
        }
        self.dispatch(code, true, now)
    }

    /// Handles a key release at time `now` and returns what to perform.
    pub fn handle_key_release(&mut self, code: u32, now: u64) -> (r: Vec<Effect>)
        ensures
            (final(self)@, r@) == old(self)@.key_release(code, now),
    {
        if self.check_activate_sleep(now) {
            return Vec::new();
        }
        self.dispatch(code, false, now)
    }
}

impl State {
    /// Handles a focus change and returns the subscription changes to make.
    pub fn handle_focus_change(&mut self, target: FocusTarget) -> (r: Vec<Effect>)
        ensures
            (final(self)@, r@) == old(self)@.focus_change(target),
    {
        let w = resolve_focus(self.window, target);
        if w == self.monitored {
            return Vec::new();
        }
        let mut effects: Vec<Effect> = Vec::new();
        if self.monitored != self.window {
            effects.push(Effect::Unsubscribe { window: self.monitored });
        }
        effects.push(Effect::Subscribe { window: w });
        self.monitored = w;
        proof {
            assert(self@ =~= old(self)@.focus_change(target).0);
            assert(effects@ =~= old(self)@.focus_change(target).1);
        }
        effects
    }

    /// Destroys the engine and returns the grabs to release.
    pub fn shutdown(self) -> (r: Vec<Effect>)
        ensures
            r@ == self@.shutdown_effects(),
    {
        let mut effects: Vec<Effect> = Vec::new();
        if self.active {
            effects.push(Effect::UngrabKeyboard);
        }
        effects.push(Effect::UngrabKey { window: self.window, code: ACTIVATION_KEY });
        proof {
            assert(effects@ =~= self@.shutdown_effects());
        }
        effects
    }
}

} // verus!
