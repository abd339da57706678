//! A container for the rectangle structure.
use vstd::prelude::*;

verus! {

/// Rectangle structure.
#[derive(Clone, Copy, Debug)]
pub struct Rect<T> {
    pub left: T,
    pub top: T,
    pub right: T,
    pub bottom: T,
}

impl Rect<i32> {
    /// The rectangle is empty when all four edges are zero.
    pub open spec fn spec_is_empty(&self) -> bool {
        self.left == 0 && self.top == 0 && self.right == 0 && self.bottom == 0
    }

    /// Whether the rectangle is empty or not.
    pub fn is_empty(&self) -> (r: bool)
        ensures
            r == self.spec_is_empty(),
    {
        self.left == 0 && self.top == 0 && self.right == 0 && self.bottom == 0
    }
}

} // verus!
