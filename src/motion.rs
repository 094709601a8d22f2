use vstd::prelude::*;

use crate::direction::Direction;
use crate::geometry::{
    build_trail, in_field, trail_from, views, Corners, Rect, FIELD_LIMIT,
};

verus! {

/// Distance units per pixel: coordinates are micro-pixels.
pub const UNITS_PER_PIXEL: i64 = 1_000_000;

/// Travel speed in micro-pixels per microsecond, which is pixels per second.
pub const SPEED: i64 = 100;

/// Half the thickness of the trail: 4 pixels, for a trail 8 pixels wide.
pub const HALF_THICKNESS: i64 = 4_000_000;

/// The longest step in microseconds that can keep a point in the field.
pub const MAX_STEP: u64 = 20_000_000_000_000_000;

/// The mathematical state of the motion.
pub struct Motion {
    pub x: int,
    pub y: int,
    pub dir: Direction,
    /// The coordinate recorded at each turn, oldest first.
    pub bends: Seq<int>,
}

impl Motion {
    /// Every coordinate, the current ones and the recorded ones, is in the field.
    pub open spec fn wf(self) -> bool {
        &&& in_field(self.x)
        &&& in_field(self.y)
        &&& forall|i: int| 0 <= i < self.bends.len() ==> in_field(#[trigger] self.bends[i])
    }

    /// The position after travelling for `dt` microseconds, before any check
    /// against the field's bounds.
    pub open spec fn moved(self, dt: nat) -> Motion {
        Motion {
            x: self.x + self.dir.dx() * dt * SPEED,
            y: self.y + self.dir.dy() * dt * SPEED,
            ..self
        }
    }

    /// One tick of `dt` microseconds: travel along the current direction, or
    /// stay in place where that would leave the field.
    pub open spec fn advanced(self, dt: nat) -> Motion {
        if in_field(self.moved(dt).x) && in_field(self.moved(dt).y) {
            self.moved(dt)
        } else {
            self
        }
    }

    /// The coordinate kept fixed while travelling along `dir`: `y` for a
    /// horizontal direction, `x` for a vertical one.
    pub open spec fn frozen(self) -> int {
        if self.dir.is_horizontal() {
            self.y
        } else {
            self.x
        }
    }

    /// A turn request: followed, with the frozen coordinate recorded as a
    /// bend, only when `to` is perpendicular to the current direction.
    pub open spec fn turned(self, to: Direction) -> Motion {
        if self.dir.is_perpendicular(to) {
            Motion { dir: to, bends: self.bends.push(self.frozen()), ..self }
        } else {
            self
        }
    }

    /// The state after a series of ticks, the first one first.
    pub open spec fn advanced_all(self, ticks: Seq<nat>) -> Motion
        decreases ticks.len(),
    {
        if ticks.len() == 0 {
            self
        } else {
            self.advanced_all(ticks.drop_last()).advanced(ticks.last())
        }
    }

    /// The state after a series of turn requests, the first one first.
    pub open spec fn turned_all(self, requests: Seq<Direction>) -> Motion
        decreases requests.len(),
    {
        if requests.len() == 0 {
            self
        } else {
            self.turned_all(requests.drop_last()).turned(requests.last())
        }
    }

    /// The rectangles of the trail, most recent segment first.
    pub open spec fn trail(self) -> Seq<Corners> {
        trail_from(self.x, self.y, self.dir.is_horizontal(), self.bends, HALF_THICKNESS as int)
    }
}

/// The state of a square that travels across the plane and leaves a trail.
pub struct App {
    bends: Vec<i64>,
    dir: Direction,
    px: i64,
    py: i64,
}

impl View for App {
    type V = Motion;

    closed spec fn view(&self) -> Motion {
        Motion {
            x: self.px as int,
            y: self.py as int,
            dir: self.dir,
            bends: self.bends@.map_values(|b: i64| b as int),
        }
    }
}

impl App {
    /// The start: at (50, 50) pixels, travelling right, with no bends.
    pub fn new() -> (r: App)
        ensures
            r@.x == 50 * UNITS_PER_PIXEL,
            r@.y == 50 * UNITS_PER_PIXEL,
            r@.dir == Direction::Right,
            r@.bends == Seq::<int>::empty(),
            r@.wf(),
    {
        let r = App { bends: Vec::new(), dir: Direction::Right, px: 50 * UNITS_PER_PIXEL, py: 50 * UNITS_PER_PIXEL };
        assert(r@.bends =~= Seq::<int>::empty());
        r
    }

    /// The current position, in micro-pixels.
    pub fn position(&self) -> (r: (i64, i64))
        ensures
            r.0 == self@.x,
            r.1 == self@.y,
    {
        (self.px, self.py)
    }

    /// The current direction of travel.
    pub fn direction(&self) -> (r: Direction)
        ensures
            r == self@.dir,
    {
        self.dir
    }

    /// The recorded bends, oldest first.
    pub fn bends(&self) -> (r: Vec<i64>)
        ensures
            r@.map_values(|b: i64| b as int) == self@.bends,
    {
        self.bends.clone()
    }

    /// Travels for `dt` microseconds at `SPEED` along the current direction.
    /// A tick that would carry the square out of the field leaves it in place.
    pub fn advance(&mut self, dt: u64)
        requires
            old(self)@.wf(),
        ensures
            final(self)@ == old(self)@.advanced(dt as nat),
            final(self)@.wf(),
    {
        if dt > MAX_STEP {
            return;
        }
        let step: i64 = dt as i64 * SPEED;
        match self.dir {
            Direction::Left => {
                if self.px >= step - FIELD_LIMIT {
                    self.px = self.px - step;
                }
            },
            Direction::Right => {
                if self.px <= FIELD_LIMIT - step {
                    self.px = self.px + step;
                }
            },
            Direction::Up => {
                if self.py >= step - FIELD_LIMIT {
                    self.py = self.py - step;
                }
            },
            Direction::Down => {
                if self.py <= FIELD_LIMIT - step {
                    self.py = self.py + step;
                }
            },
        }
    }

    /// Turns towards `to` where it is perpendicular to the current direction,
    /// recording the coordinate that stayed fixed on the way here; any other
    /// request changes nothing.
    pub fn turn(&mut self, to: Direction)
        requires
            old(self)@.wf(),
        ensures
            final(self)@ == old(self)@.turned(to),
            final(self)@.wf(),
    {
        if self.dir.is_perpendicular(to) {
            let frozen = if self.dir.is_horizontal() {
                self.py
            } else {
                self.px
            };
            self.bends.push(frozen);
            self.dir = to;
            proof {
                assert(self@.bends =~= old(self)@.bends.push(old(self)@.frozen()));
            }
        }
    }

    /// The rectangles of the trail, most recent segment first, one per bend.
    pub fn trail(&self) -> (r: Vec<Rect>)
        requires
            self@.wf(),
        ensures
            views(r@) == self@.trail(),
            r@.len() == self@.bends.len(),
    {
        proof {
            assert forall|i: int| 0 <= i < self.bends@.len() implies in_field(#[trigger] self.bends@[i] as int) by {
                assert(self@.bends[i] == self.bends@[i] as int);
            }
        }
        build_trail(self.px, self.py, self.dir.is_horizontal(), &self.bends, HALF_THICKNESS)
    }
}

} // verus!
