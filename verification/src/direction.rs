use vstd::prelude::*;

verus! {

/// A heading on the grid. `Up` is towards smaller `y`, `Left` towards
/// smaller `x`.
#[derive(Copy, Clone, PartialEq, Eq, Debug, Structural)]
pub enum Direction {
    Up,
    Down,
    Left,
    Right,
}

impl Direction {
    /// The heading that points the other way: `Up` and `Down` swap, and so
    /// do `Left` and `Right`.
    pub open spec fn reversed(&self) -> Direction {
        match *self {
            Direction::Up => Direction::Down,
            Direction::Down => Direction::Up,
            Direction::Left => Direction::Right,
            Direction::Right => Direction::Left,
        }
    }

    /// Whether the heading runs along the `x` axis.
    pub open spec fn is_horizontal(&self) -> bool {
        *self == Direction::Left || *self == Direction::Right
    }

    /// Returns the heading that points the other way.
    ///
    /// A caller that steers a snake compares a requested heading with
    /// `head_direction().opposite()` and drops the request when they are
    /// equal.
    #[verifier::when_used_as_spec(reversed)]
    pub fn opposite(&self) -> (r: Direction)
        ensures
            r == self.reversed(),
    {
        match *self {
            Direction::Up => Direction::Down,
            Direction::Down => Direction::Up,
            Direction::Left => Direction::Right,
            Direction::Right => Direction::Left,
        }
    }

    /// Reversing twice gives the heading back.
    pub proof fn lemma_opposite_twice(self)
        ensures
            self.opposite().opposite() == self,
    {
    }

    /// A heading and its opposite differ, and lie on the same axis.
    pub proof fn lemma_opposite_same_axis(self)
        ensures
            self.opposite() != self,
            self.opposite().is_horizontal() == self.is_horizontal(),
    {
    }
}

} // verus!
