//! A modal keyboard-to-pointer remapping engine.
//!
//! Holding the activation key turns part of the keyboard into a pointing
//! device; tapping it delivers an ordinary keystroke. The engine is a pure
//! state machine: each input event, together with a clock reading, yields the
//! engine's next state and the list of display-server operations to perform.
pub mod bindings;
pub mod cursor;
pub mod effect;
pub mod focus;
pub mod model;
pub mod state;
pub mod lemmas;
