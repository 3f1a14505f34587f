//! Which window the engine listens on.
use vstd::prelude::*;

verus! {

/// The input focus as the display server reports it.
#[derive(Clone, Copy, Debug, PartialEq, Eq, Structural)]
pub enum FocusTarget {
    /// The focus follows the pointer: no concrete window holds it.
    PointerRoot,
    /// A concrete window holds the focus.
    Window(u64),
}

/// The window to listen on for a reported focus: the focused window, or the
/// root window when the focus follows the pointer.
pub open spec fn focus_window(root: u64, target: FocusTarget) -> u64 {
    match target {
        FocusTarget::PointerRoot => root,
        FocusTarget::Window(w) => w,
    }
}

pub fn resolve_focus(root: u64, target: FocusTarget) -> (r: u64)
    ensures
        r == focus_window(root, target),
{
    match target {
        FocusTarget::PointerRoot => root,
        FocusTarget::Window(w) => w,
    }
}

} // verus!
