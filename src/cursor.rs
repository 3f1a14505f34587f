//! Pointer coordinates on the root window.
use vstd::prelude::*;

verus! {

/// A pointer position: horizontal and vertical offset from the root window's
/// origin.
#[derive(Clone, Copy, Debug, PartialEq, Eq, Structural)]
pub struct CursorCoordinates(u32, u32);

impl CursorCoordinates {
    pub closed spec fn spec_x(self) -> u32 {
        self.0
    }

    pub closed spec fn spec_y(self) -> u32 {
        self.1
    }

    pub fn new(x: u32, y: u32) -> (r: Self)
        ensures
            r.spec_x() == x,
            r.spec_y() == y,
    {
        CursorCoordinates(x, y)
    }

    /// The coordinates of a pointer query's root-relative position, each
    /// signed value reinterpreted as unsigned.
    pub fn from_root_position(root_x: i32, root_y: i32) -> (r: Self)
        ensures
            r.spec_x() == root_x as u32,
            r.spec_y() == root_y as u32,
            root_x >= 0 ==> r.spec_x() == root_x,
            root_y >= 0 ==> r.spec_y() == root_y,
    {
        CursorCoordinates(root_x as u32, root_y as u32)
    }

    pub fn x(&self) -> (r: u32)
        ensures
            r == self.spec_x(),
    {
        self.0
    }

    pub fn y(&self) -> (r: u32)
        ensures
            r == self.spec_y(),
    {
        self.1
    }
}

} // verus!
