//! The engine's abstract state and the rules by which events change it.
use vstd::prelude::*;
use crate::bindings::{role_of, Direction, MouseButton, Role, Speed, ACTIVATION_KEY};
use crate::effect::Effect;
use crate::focus::{focus_window, FocusTarget};

verus! {

/// Pointer travel per direction event, in pixels, with no speed modifier.
pub const BASE_RATE: i32 = 5;

/// How long the activation key must be held, in milliseconds, for the
/// gesture to count as a hold rather than a tap.
pub const HOLD_THRESHOLD_MS: u64 = 500;

/// Length of both debounce windows, in milliseconds.
pub const DEBOUNCE_MS: u64 = 5;

/// How many keys the pending buffer holds.
pub const PENDING_CAPACITY: usize = 2;

/// The engine's state as plain values. Times are milliseconds on the host's
/// monotonic clock.
pub ghost struct EngineView {
    /// The root window: key grabs are made on it, and it stays subscribed.
    pub window: u64,
    /// The window whose events the engine currently selects.
    pub monitored: u64,
    /// Mode: true when Active, false when Idle.
    pub active: bool,
    pub fast: bool,
    pub slow: bool,
    pub scroll: bool,
    pub left: bool,
    pub down: bool,
    pub up: bool,
    pub right: bool,
    pub left_click: bool,
    pub middle_click: bool,
    pub right_click: bool,
    /// The sticky left button: true while it is held down.
    pub toggle: bool,
    /// Keys pressed while a tap or hold is undecided, oldest first.
    pub pending: Seq<u32>,
    /// When the activation key was last pressed.
    pub activation_pressed_at: u64,
    /// Start of the window in which events are swallowed after a tap.
    pub activate_cooldown_start: u64,
    /// Start of the window in which the activation key is not buffered.
    pub cache_cooldown_start: u64,
}

/// Milliseconds from `start` to `now`; zero if `now` is earlier.
pub open spec fn elapsed(start: u64, now: u64) -> int {
    if now >= start {
        now - start
    } else {
        0
    }
}

/// Whether a debounce window started at `start` is still open at `now`.
pub open spec fn cooling_down(start: u64, now: u64) -> bool {
    elapsed(start, now) < DEBOUNCE_MS
}

/// The effective pointer rate: doubled with Fast (which wins over Slow),
/// halved with Slow alone.
pub open spec fn rate_of(fast: bool, slow: bool) -> i32 {
    if fast {
        (BASE_RATE * 2) as i32
    } else if slow {
        (BASE_RATE / 2) as i32
    } else {
        BASE_RATE
    }
}

/// The pending buffer after `code` is offered to it: appended while there is
/// room, dropped otherwise.
pub open spec fn buffered(pending: Seq<u32>, code: u32) -> Seq<u32> {
    if pending.len() < PENDING_CAPACITY {
        pending.push(code)
    } else {
        pending
    }
}

/// The replay of one buffered key: release, press, release.
pub open spec fn key_replay(code: u32) -> Seq<Effect> {
    seq![
        Effect::SynthesizeKey { code, pressed: false },
        Effect::SynthesizeKey { code, pressed: true },
        Effect::SynthesizeKey { code, pressed: false },
    ]
}

/// The replay of buffered keys, each in full, oldest first.
pub open spec fn replay_of(keys: Seq<u32>) -> Seq<Effect>
    decreases keys.len(),
{
    if keys.len() == 0 {
        seq![]
    } else {
        replay_of(keys.drop_last()) + key_replay(keys.last())
    }
}

/// What a rejected (tapped) activation gesture emits after the keyboard grab
/// is released: the activation key's own press and release, then the
/// buffered keys, between releasing and re-acquiring the activation key grab.
pub open spec fn tap_replay(window: u64, pending: Seq<u32>) -> Seq<Effect> {
    seq![
        Effect::UngrabKey { window, code: ACTIVATION_KEY },
        Effect::SynthesizeKey { code: ACTIVATION_KEY, pressed: true },
        Effect::SynthesizeKey { code: ACTIVATION_KEY, pressed: false },
    ] + replay_of(pending) + seq![Effect::GrabKey { window, code: ACTIVATION_KEY }]
}

impl EngineView {
    /// A fresh engine on root window `window`, created at time `now`: Idle,
    /// nothing held or buffered, and both debounce windows open from `now`.
    pub open spec fn initial(window: u64, now: u64) -> EngineView {
        EngineView {
            window,
            monitored: window,
            active: false,
            fast: false,
            slow: false,
            scroll: false,
            left: false,
            down: false,
            up: false,
            right: false,
            left_click: false,
            middle_click: false,
            right_click: false,
            toggle: false,
            pending: seq![],
            activation_pressed_at: now,
            activate_cooldown_start: now,
            cache_cooldown_start: now,
        }
    }

    /// What a fresh engine emits: the activation key grab, and the root
    /// window's subscription.
    pub open spec fn initial_effects(window: u64) -> Seq<Effect> {
        seq![Effect::GrabKey { window, code: ACTIVATION_KEY }, Effect::Subscribe { window }]
    }

    pub open spec fn rate(self) -> i32 {
        rate_of(self.fast, self.slow)
    }

    /// The pointer action for the current direction flags, first match
    /// winning: diagonals, then scrolling, then single-axis motion.
    pub open spec fn motion(self, pressed: bool) -> Seq<Effect> {
        let r = self.rate();
        let minus_r = (-r) as i32;
        if self.left && self.down {
            seq![Effect::MovePointer { dx: minus_r, dy: r }]
        } else if self.left && self.up {
            seq![Effect::MovePointer { dx: minus_r, dy: minus_r }]
        } else if self.right && self.down {
            seq![Effect::MovePointer { dx: r, dy: r }]
        } else if self.right && self.up {
            seq![Effect::MovePointer { dx: r, dy: minus_r }]
        } else if self.scroll && self.left {
            seq![Effect::Scroll { direction: Direction::Left, pressed }]
        } else if self.scroll && self.down {
            seq![Effect::Scroll { direction: Direction::Down, pressed }]
        } else if self.scroll && self.up {
            seq![Effect::Scroll { direction: Direction::Up, pressed }]
        } else if self.scroll && self.right {
            seq![Effect::Scroll { direction: Direction::Right, pressed }]
        } else if self.left {
            seq![Effect::MovePointer { dx: minus_r, dy: 0 }]
        } else if self.down {
            seq![Effect::MovePointer { dx: 0, dy: r }]
        } else if self.up {
            seq![Effect::MovePointer { dx: 0, dy: minus_r }]
        } else if self.right {
            seq![Effect::MovePointer { dx: r, dy: 0 }]
        } else {
            seq![]
        }
    }

    pub open spec fn with_direction(self, direction: Direction, pressed: bool) -> EngineView {
        match direction {
            Direction::Left => EngineView { left: pressed, ..self },
            Direction::Down => EngineView { down: pressed, ..self },
            Direction::Up => EngineView { up: pressed, ..self },
            Direction::Right => EngineView { right: pressed, ..self },
        }
    }

    pub open spec fn with_speed(self, speed: Speed, pressed: bool) -> EngineView {
        match speed {
            Speed::Fast => EngineView { fast: pressed, ..self },
            Speed::Slow => EngineView { slow: pressed, ..self },
        }
    }

    pub open spec fn with_button(self, button: MouseButton, pressed: bool) -> EngineView {
        match button {
            MouseButton::Left => EngineView { left_click: pressed, ..self },
            MouseButton::Middle => EngineView { middle_click: pressed, ..self },
            MouseButton::Right => EngineView { right_click: pressed, ..self },
        }
    }

    /// A direction key changes its flag, then the pointer acts on all flags.
    pub open spec fn direction_step(self, direction: Direction, pressed: bool) -> (
        EngineView,
        Seq<Effect>,
    ) {
        let s = self.with_direction(direction, pressed);
        (s, s.motion(pressed))
    }

    /// A press of the toggle key flips the sticky left button; a release does
    /// nothing.
    pub open spec fn toggle_step(self, pressed: bool) -> (EngineView, Seq<Effect>) {
        if pressed {
            let t = !self.toggle;
            (
                EngineView { toggle: t, ..self },
                seq![Effect::SetButton { button: MouseButton::Left, pressed: t }],
            )
        } else {
            (self, seq![])
        }
    }

    /// A key with a remapping role (anything but the activation key), in
    /// Active mode.
    pub open spec fn remap(self, code: u32, pressed: bool) -> (EngineView, Seq<Effect>) {
        match role_of(code) {
            Role::Direction(d) => self.direction_step(d, pressed),
            Role::Speed(sp) => (self.with_speed(sp, pressed), seq![]),
            Role::Scroll => (EngineView { scroll: pressed, ..self }, seq![]),
            Role::Button(b) => (
                self.with_button(b, pressed),
                seq![Effect::SetButton { button: b, pressed }],
            ),
            Role::Toggle => self.toggle_step(pressed),
            Role::Unmapped => (self, seq![Effect::SynthesizeKey { code, pressed }]),
            Role::Activation => (self, seq![]),
        }
    }

    /// The activation key goes down: grab the keyboard, start timing, and
    /// enter Active mode at once.
    pub open spec fn activation_press(self, now: u64) -> (EngineView, Seq<Effect>) {
        (
            EngineView { active: true, activation_pressed_at: now, ..self },
            seq![Effect::GrabKeyboard { window: self.window }],
        )
    }

    /// The activation key goes up: release the keyboard; on a hold keep
    /// everything else, on a tap start both debounce windows and replay.
    pub open spec fn activation_release(self, now: u64) -> (EngineView, Seq<Effect>) {
        if elapsed(self.activation_pressed_at, now) >= HOLD_THRESHOLD_MS {
            (EngineView { active: false, ..self }, seq![Effect::UngrabKeyboard])
        } else {
            (
                EngineView {
                    active: false,
                    pending: seq![],
                    activate_cooldown_start: now,
                    cache_cooldown_start: now,
                    ..self
                },
                seq![Effect::UngrabKeyboard] + tap_replay(self.window, self.pending),
            )
        }
    }

    /// A key event past the debounce check, routed by role. Only the
    /// activation key acts in Idle mode.
    pub open spec fn dispatch(self, code: u32, pressed: bool, now: u64) -> (
        EngineView,
        Seq<Effect>,
    ) {
        if code == ACTIVATION_KEY {
            if pressed {
                self.activation_press(now)
            } else {
                self.activation_release(now)
            }
        } else if self.active {
            self.remap(code, pressed)
        } else {
            (self, seq![])
        }
    }

    /// A key press at time `now`: buffered first (the activation key only
    /// once the cache window has closed), then swallowed while the
    /// activation window is open, else dispatched.
    pub open spec fn key_press(self, code: u32, now: u64) -> (EngineView, Seq<Effect>) {
        let s = if code != ACTIVATION_KEY || !cooling_down(self.cache_cooldown_start, now) {
            EngineView { pending: buffered(self.pending, code), ..self }
        } else {
            self
        };
        if cooling_down(self.activate_cooldown_start, now) {
            (s, seq![])
        } else {
            s.dispatch(code, true, now)
        }
    }

    /// A key release at time `now`: swallowed while the activation window is
    /// open, else dispatched.
    pub open spec fn key_release(self, code: u32, now: u64) -> (EngineView, Seq<Effect>) {
        if cooling_down(self.activate_cooldown_start, now) {
            (self, seq![])
        } else {
            self.dispatch(code, false, now)
        }
    }

    /// A focus change: move the subscription to the newly focused window,
    /// leaving the root window subscribed.
    pub open spec fn focus_change(self, target: FocusTarget) -> (EngineView, Seq<Effect>) {
        let w = focus_window(self.window, target);
        if w == self.monitored {
            (self, seq![])
        } else if self.monitored == self.window {
            (EngineView { monitored: w, ..self }, seq![Effect::Subscribe { window: w }])
        } else {
            (
                EngineView { monitored: w, ..self },
                seq![Effect::Unsubscribe { window: self.monitored }, Effect::Subscribe { window: w }],
            )
        }
    }

    /// What the engine emits when it is destroyed: the keyboard grab if it is
    /// Active, then the activation key grab.
    pub open spec fn shutdown_effects(self) -> Seq<Effect> {
        if self.active {
            seq![Effect::UngrabKeyboard, Effect::UngrabKey { window: self.window, code: ACTIVATION_KEY }]
        } else {
            seq![Effect::UngrabKey { window: self.window, code: ACTIVATION_KEY }]
        }
    }
}

} // verus!
