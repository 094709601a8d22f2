use vstd::prelude::*;

verus! {

/// One of the four directions of travel.
#[derive(Clone, Copy, Debug, PartialEq, Eq, Structural)]
pub enum Direction {
    Left,
    Right,
    Up,
    Down,
}

impl Direction {
    pub open spec fn spec_is_horizontal(self) -> bool {
        self is Left || self is Right
    }

    /// Whether travel in this direction changes `x` (and leaves `y` alone).
    #[verifier::when_used_as_spec(spec_is_horizontal)]
    pub fn is_horizontal(self) -> (r: bool)
        ensures
            r == self.spec_is_horizontal(),
    {
        match self {
            Direction::Left | Direction::Right => true,
            Direction::Up | Direction::Down => false,
        }
    }

    pub open spec fn spec_is_perpendicular(self, other: Direction) -> bool {
        self.is_horizontal() != other.is_horizontal()
    }

    /// Whether one direction is horizontal and the other vertical.
    #[verifier::when_used_as_spec(spec_is_perpendicular)]
    pub fn is_perpendicular(self, other: Direction) -> (r: bool)
        ensures
            r == self.spec_is_perpendicular(other),
    {
        self.is_horizontal() != other.is_horizontal()
    }

    /// The `x` component of the unit vector of this direction
    /// (`y` grows downwards, as on a screen).
    pub open spec fn dx(self) -> int {
        match self {
            Direction::Left => -1,
            Direction::Right => 1,
            _ => 0,
        }
    }

    /// The `y` component of the unit vector of this direction.
    pub open spec fn dy(self) -> int {
        match self {
            Direction::Up => -1,
            Direction::Down => 1,
            _ => 0,
        }
    }

    /// The direction after a series of turn requests, starting from `self`:
    /// a request is followed only when it is perpendicular to the direction
    /// at that moment.
    pub open spec fn after(self, requests: Seq<Direction>) -> Direction
        decreases requests.len(),
    {
        if requests.len() == 0 {
            self
        } else {
            let d = self.after(requests.drop_last());
            if d.is_perpendicular(requests.last()) {
                requests.last()
            } else {
                d
            }
        }
    }

    /// How many requests of a series are followed, starting from `self`.
    pub open spec fn turns_taken(self, requests: Seq<Direction>) -> nat
        decreases requests.len(),
    {
        if requests.len() == 0 {
            0
        } else {
            let d = self.after(requests.drop_last());
            self.turns_taken(requests.drop_last()) + if d.is_perpendicular(requests.last()) {
                1nat
            } else {
                0nat
            }
        }
    }
}

} // verus!
