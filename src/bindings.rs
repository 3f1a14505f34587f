//! The fixed binding table: which physical key code plays which role.
use vstd::prelude::*;

verus! {

/// Key code of the activation key (`d`).
pub const ACTIVATION_KEY: u32 = 40;

/// Key code of the fast speed modifier (`f`).
pub const FAST_KEY: u32 = 41;

/// Key code of the slow speed modifier (`g`).
pub const SLOW_KEY: u32 = 42;

/// Key code of the scroll modifier (`s`).
pub const SCROLL_KEY: u32 = 39;

/// Key code that moves left (`h`).
pub const LEFT_KEY: u32 = 43;

/// Key code that moves down (`j`).
pub const DOWN_KEY: u32 = 44;

/// Key code that moves up (`k`).
pub const UP_KEY: u32 = 45;

/// Key code that moves right (`l`).
pub const RIGHT_KEY: u32 = 46;

/// Key code of the left mouse button (`v`).
pub const LEFT_CLICK_KEY: u32 = 55;

/// Key code of the sticky left-button toggle (space).
pub const LEFT_CLICK_TOGGLE_KEY: u32 = 65;

/// Key code of the middle mouse button (`b`).
pub const MIDDLE_CLICK_KEY: u32 = 56;

/// Key code of the right mouse button (`n`).
pub const RIGHT_CLICK_KEY: u32 = 57;

/// A pointer or scroll direction.
#[derive(Clone, Copy, Debug, PartialEq, Eq, Structural)]
pub enum Direction {
    Left,
    Down,
    Up,
    Right,
}

/// A mouse button.
#[derive(Clone, Copy, Debug, PartialEq, Eq, Structural)]
pub enum MouseButton {
    Left,
    Middle,
    Right,
}

/// A speed modifier.
#[derive(Clone, Copy, Debug, PartialEq, Eq, Structural)]
pub enum Speed {
    Fast,
    Slow,
}

/// The logical role of a key code.
#[derive(Clone, Copy, Debug, PartialEq, Eq, Structural)]
pub enum Role {
    Activation,
    Direction(Direction),
    Speed(Speed),
    Scroll,
    Button(MouseButton),
    Toggle,
    Unmapped,
}

/// The binding table: the one role of each key code.
pub open spec fn role_of(code: u32) -> Role {
    if code == ACTIVATION_KEY {
        Role::Activation
    } else if code == SCROLL_KEY {
        Role::Scroll
    } else if code == FAST_KEY {
        Role::Speed(Speed::Fast)
    } else if code == SLOW_KEY {
        Role::Speed(Speed::Slow)
    } else if code == LEFT_KEY {
        Role::Direction(Direction::Left)
    } else if code == DOWN_KEY {
        Role::Direction(Direction::Down)
    } else if code == UP_KEY {
        Role::Direction(Direction::Up)
    } else if code == RIGHT_KEY {
        Role::Direction(Direction::Right)
    } else if code == LEFT_CLICK_KEY {
        Role::Button(MouseButton::Left)
    } else if code == MIDDLE_CLICK_KEY {
        Role::Button(MouseButton::Middle)
    } else if code == RIGHT_CLICK_KEY {
        Role::Button(MouseButton::Right)
    } else if code == LEFT_CLICK_TOGGLE_KEY {
        Role::Toggle
    } else {
        Role::Unmapped
    }
}

/// Looks up the role of `code` in the binding table.
pub fn role(code: u32) -> (r: Role)
    ensures
        r == role_of(code),
{
    if code == ACTIVATION_KEY {
        Role::Activation
    } else if code == SCROLL_KEY {
        Role::Scroll
    } else if code == FAST_KEY {
        Role::Speed(Speed::Fast)
    } else if code == SLOW_KEY {
        Role::Speed(Speed::Slow)
    } else if code == LEFT_KEY {
        Role::Direction(Direction::Left)
    } else if code == DOWN_KEY {
        Role::Direction(Direction::Down)
    } else if code == UP_KEY {
        Role::Direction(Direction::Up)
    } else if code == RIGHT_KEY {
        Role::Direction(Direction::Right)
    } else if code == LEFT_CLICK_KEY {
        Role::Button(MouseButton::Left)
    } else if code == MIDDLE_CLICK_KEY {
        Role::Button(MouseButton::Middle)
    } else if code == RIGHT_CLICK_KEY {
        Role::Button(MouseButton::Right)
    } else if code == LEFT_CLICK_TOGGLE_KEY {
        Role::Toggle
    } else {
        Role::Unmapped
    }
}

} // verus!
