//! The display-server operations that the engine asks its host to perform.
use vstd::prelude::*;
use crate::bindings::{Direction, MouseButton};

verus! {

/// One operation on the display server, in the order the engine emits it.
///
/// Windows are X window ids; key codes are hardware key codes.
#[derive(Clone, Copy, Debug, PartialEq, Eq, Structural)]
pub enum Effect {
    /// Move the pointer by a relative offset.
    MovePointer { dx: i32, dy: i32 },
    /// Press or release a mouse button.
    SetButton { button: MouseButton, pressed: bool },
    /// Press or release a scroll button.
    Scroll { direction: Direction, pressed: bool },
    /// Synthesize a key press or release towards the focused window.
    SynthesizeKey { code: u32, pressed: bool },
    /// Grab one key code on a window.
    GrabKey { window: u64, code: u32 },
    /// Release the grab of one key code on a window.
    UngrabKey { window: u64, code: u32 },
    /// Grab the whole keyboard, exclusively, on a window.
    GrabKeyboard { window: u64 },
    /// Release the exclusive keyboard grab.
    UngrabKeyboard,
    /// Select key press, key release, pointer motion and focus change events
    /// on a window.
    Subscribe { window: u64 },
    /// Select no events on a window.
    Unsubscribe { window: u64 },
}

} // verus!
