use std::ops::Add;

use vstd::prelude::*;
use vstd::std_specs::ops::AddSpec;

verus! {

/// A rectangle: its top-left corner and its size.
#[derive(Debug, Copy, Clone, PartialEq)]
pub struct Rectangle<T> {
    /// The x-coordinate of the left edge.
    pub x: T,
    /// The y-coordinate of the top edge.
    pub y: T,
    /// The extent along the x-axis.
    pub width: T,
    /// The extent along the y-axis.
    pub height: T,
}

impl<T> Rectangle<T> where T: Copy + Add<Output = T> {
    /// Creates a new [`Rectangle`].
    pub fn new(x: T, y: T, width: T, height: T) -> (r: Self)
        ensures
            r == (Rectangle { x, y, width, height }),
    {
        Self { x, y, width, height }
    }

    /// The x-coordinate of the left edge.
    pub fn left(&self) -> (r: T)
        ensures
            r == self.x,
    {
        self.x
    }

    /// The y-coordinate of the top edge.
    pub fn top(&self) -> (r: T)
        ensures
            r == self.y,
    {
        self.y
    }

    /// The x-coordinate of the right edge: `x + width`.
    pub fn right(&self) -> (r: T)
        requires
            self.x.add_req(self.width),
        ensures
            T::obeys_add_spec() ==> r == self.x.add_spec(self.width),
    {
        self.x + self.width
    }

    /// The y-coordinate of the bottom edge: `y + height`.
    pub fn bottom(&self) -> (r: T)
        requires
            self.y.add_req(self.height),
        ensures
            T::obeys_add_spec() ==> r == self.y.add_spec(self.height),
    {
        self.y + self.height
    }
}

} // verus!
