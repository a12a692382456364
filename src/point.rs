use vstd::prelude::*;

use crate::direction::{opposite_of, Direction};

verus! {

/// A cell of the board: column `x`, row `y`, with row 0 at the top.
#[derive(Debug, Clone, Copy, PartialEq, Eq, Structural)]
pub struct Point {
    pub x: u16,
    pub y: u16,
}

/// The coordinates reached from `p` after `n` steps toward `d`, as unbounded integers.
pub open spec fn shifted(p: Point, d: Direction, n: int) -> (int, int) {
    match d {
        Direction::Up => (p.x as int, p.y - n),
        Direction::Right => (p.x + n, p.y as int),
        Direction::Down => (p.x as int, p.y + n),
        Direction::Left => (p.x - n, p.y as int),
    }
}

/// Whether `n` steps toward `d` from `p` stay within the range of a coordinate.
pub open spec fn can_shift(p: Point, d: Direction, n: int) -> bool {
    let c = shifted(p, d, n);
    0 <= c.0 <= u16::MAX && 0 <= c.1 <= u16::MAX
}

/// The point `n` steps from `p` toward `d`.
pub open spec fn shift(p: Point, d: Direction, n: int) -> Point {
    let c = shifted(p, d, n);
    Point { x: c.0 as u16, y: c.1 as u16 }
}

/// Whether `q` is one step away from `p` along some heading.
pub open spec fn adjacent(p: Point, q: Point) -> bool {
    exists|d: Direction| can_shift(p, d, 1) && #[trigger] shift(p, d, 1) == q
}

impl Point {
    pub fn new(x: u16, y: u16) -> (r: Self)
        ensures
            r == (Point { x, y }),
    {
        Point { x, y }
    }

    /// The point `distance` cells away toward `direction`; no clamping to any board.
    pub fn transform(&self, direction: Direction, distance: u16) -> (r: Self)
        requires
            can_shift(*self, direction, distance as int),
        ensures
            r == shift(*self, direction, distance as int),
    {
        match direction {
            Direction::Up => Point { x: self.x, y: self.y - distance },
            Direction::Right => Point { x: self.x + distance, y: self.y },
            Direction::Down => Point { x: self.x, y: self.y + distance },
            Direction::Left => Point { x: self.x - distance, y: self.y },
        }
    }
}

/// A single step followed by a single step back returns to the start.
pub proof fn lemma_step_back(p: Point, d: Direction)
    requires
        can_shift(p, d, 1),
    ensures
        can_shift(shift(p, d, 1), opposite_of(d), 1),
        shift(shift(p, d, 1), opposite_of(d), 1) == p,
{
}

} // verus!
