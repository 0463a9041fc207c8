//! An axis-aligned rectangle and the question whether one fits inside another.

use vstd::prelude::*;

verus! {

/// A rectangle given by its two side lengths.
#[derive(Debug)]
pub struct Rectangle {
    pub length: u32,
    pub width: u32,
}

impl Rectangle {
    /// `self` holds `other` when it is strictly larger in both dimensions.
    pub open spec fn holds(self, other: Rectangle) -> bool {
        self.length > other.length && self.width > other.width
    }

    /// Tells whether `other` fits strictly inside `self`.
    pub fn can_hold(&self, other: &Rectangle) -> (fits: bool)
        ensures
            fits == self.holds(*other),
    {
        self.length > other.length && self.width > other.width
    }
}

/// Holding goes one way only: of two rectangles at most one holds the other,
/// and so no rectangle holds itself.
pub proof fn lemma_holds_asymmetric(a: Rectangle, b: Rectangle)
    ensures
        a.holds(b) ==> !b.holds(a),
        !a.holds(a),
{
}

} // verus!
