use vstd::prelude::*;

use crate::direction::{opposite_of, Direction};
use crate::point::{adjacent, can_shift, shift, Point};

verus! {

/// The abstract state of a snake.
pub ghost struct SnakeModel {
    /// Head first, tail last.
    pub body: Seq<Point>,
    /// The heading applied by the next advance.
    pub direction: Direction,
    /// Whether the next advance keeps the tail in place.
    pub digesting: bool,
    /// The display-facing speed tier.
    pub speed: u16,
}

impl SnakeModel {
    /// The snake is never empty and its segments join up.
    pub open spec fn wf(self) -> bool {
        &&& self.body.len() >= 1
        &&& contiguous(self.body)
    }
}

/// An advance keeps the length of the body, or adds one segment when digesting.
pub proof fn lemma_slither_length(m: SnakeModel)
    requires
        m.body.len() >= 1,
    ensures
        !m.digesting ==> slithered(m).len() == m.body.len(),
        m.digesting ==> slithered(m).len() == m.body.len() + 1,
        slithered(m)[0] == next_head(m),
{
}

/// Each segment is one step away from the next one.
pub open spec fn contiguous(body: Seq<Point>) -> bool {
    forall|i: int| 0 <= i < body.len() - 1 ==> adjacent(#[trigger] body[i], body[i + 1])
}

/// The cell the head moves into on the next advance, where that cell can be represented.
pub open spec fn next_head(m: SnakeModel) -> Point {
    shift(m.body[0], m.direction, 1)
}

/// The body after one advance.
pub open spec fn slithered(m: SnakeModel) -> Seq<Point> {
    if m.digesting {
        seq![next_head(m)] + m.body
    } else {
        seq![next_head(m)] + m.body.drop_last()
    }
}

/// Whether the next head lands on a segment other than the current head and tail.
pub open spec fn bites_itself(m: SnakeModel) -> bool {
    &&& m.body.len() >= 2
    &&& can_shift(m.body[0], m.direction, 1)
    &&& m.body.subrange(1, m.body.len() - 1).contains(next_head(m))
}

/// Whether the head stands on the edge of a `width` by `height` board it is heading toward.
pub open spec fn at_wall(head: Point, direction: Direction, width: int, height: int) -> bool {
    match direction {
        Direction::Up => head.y == 0,
        Direction::Right => head.x == width - 1,
        Direction::Down => head.y == height - 1,
        Direction::Left => head.x == 0,
    }
}

#[derive(Debug)]
pub struct Snake {
    body: Vec<Point>,
    direction: Direction,
    digesting: bool,
    speed: u16,
}

impl View for Snake {
    type V = SnakeModel;

    closed spec fn view(&self) -> SnakeModel {
        SnakeModel {
            body: self.body@,
            direction: self.direction,
            digesting: self.digesting,
            speed: self.speed,
        }
    }
}

impl Snake {
    /// The snake is never empty and its segments join up.
    pub open spec fn inv(&self) -> bool {
        self@.wf()
    }

    /// A snake of `length` segments with its head at `start`, trailing away from `direction`.
    pub fn new(start: Point, length: u16, speed: u16, direction: Direction) -> (r: Self)
        requires
            length >= 1,
            can_shift(start, opposite_of(direction), length - 1),
        ensures
            r.inv(),
            r@.body.len() == length,
            forall|i: int|
                0 <= i < length ==> #[trigger] r@.body[i] == shift(start, opposite_of(direction), i),
            r@.direction == direction,
            !r@.digesting,
            r@.speed == speed,
    {
        let opposite = direction.opposite();
        let mut body: Vec<Point> = Vec::new();
        let mut i: u16 = 0;
        while i < length
            invariant
                i <= length,
                can_shift(start, opposite, length - 1),
                opposite == opposite_of(direction),
                body@.len() == i,
                forall|j: int| 0 <= j < i ==> #[trigger] body@[j] == shift(start, opposite, j),
            decreases length - i,
        {
            body.push(start.transform(opposite, i));
            i = i + 1;
        }
        assert forall|j: int| 0 <= j < body@.len() - 1 implies adjacent(
            #[trigger] body@[j],
            body@[j + 1],
        ) by {
            assert(shift(body@[j], opposite, 1) == body@[j + 1]);
        }
        Self { body, direction, digesting: false, speed }
    }

    pub fn get_head(&self) -> (r: Point)
        requires
            self.inv(),
        ensures
            r == self@.body[0],
    {
        self.body[0]
    }

    pub fn get_body(&self) -> (r: Vec<Point>)
        ensures
            r@ == self@.body,
    {
        self.body.clone()
    }

    pub fn get_direction(&self) -> (r: Direction)
        ensures
            r == self@.direction,
    {
        self.direction
    }

    pub fn get_speed(&self) -> (r: u16)
        ensures
            r == self@.speed,
    {
        self.speed
    }

    pub fn set_speed(&mut self, speed: u16)
        ensures
            final(self)@ == (SnakeModel { speed, ..old(self)@ }),
    {
        self.speed = speed;
    }

    pub fn contains(&self, point: &Point) -> (r: bool)
        ensures
            r == self@.body.contains(*point),
    {
        let mut i: usize = 0;
        while i < self.body.len()
            invariant
                i <= self.body@.len(),
                forall|j: int| 0 <= j < i ==> self.body@[j] != *point,
            decreases self.body@.len() - i,
        {
            if self.body[i] == *point {
                return true;
            }
            i = i + 1;
        }
        false
    }

    /// Moves the head one cell along the heading; the tail follows unless the snake is digesting.
    pub fn slither(&mut self)
        requires
            old(self).inv(),
            can_shift(old(self)@.body[0], old(self)@.direction, 1),
        ensures
            final(self).inv(),
            final(self)@.body == slithered(old(self)@),
            !final(self)@.digesting,
            final(self)@.direction == old(self)@.direction,
            final(self)@.speed == old(self)@.speed,
    {
        let ghost before = self@;
        let head = self.body[0].transform(self.direction, 1);
        self.body.insert(0, head);
        if !self.digesting {
            let last = self.body.len() - 1;
            self.body.remove(last);
        } else {
            self.digesting = false;
        }
        assert(self.body@ =~= slithered(before));
        assert forall|j: int| 0 <= j < self.body@.len() - 1 implies adjacent(
            #[trigger] self.body@[j],
            self.body@[j + 1],
        ) by {
            if j == 0 {
                assert(shift(head, opposite_of(before.direction), 1) == before.body[0]);
                assert(can_shift(head, opposite_of(before.direction), 1));
            } else {
                assert(self.body@[j] == before.body[j - 1]);
                assert(self.body@[j + 1] == before.body[j]);
            }
        }
    }

    pub fn set_direction(&mut self, direction: Direction)
        ensures
            final(self)@ == (SnakeModel { direction, ..old(self)@ }),
    {
        self.direction = direction;
    }

    /// Marks the snake so that its next advance keeps the tail.
    pub fn grow(&mut self)
        ensures
            final(self)@ == (SnakeModel { digesting: true, ..old(self)@ }),
    {
        self.digesting = true;
    }

    /// Whether the next advance would run the head into the body, leaving out the
    /// current head and the current tail.
    pub fn bit_self(&self) -> (r: bool)
        requires
            self.inv(),
        ensures
            r == bites_itself(self@),
    {
        let len = self.body.len();
        if len < 2 {
            return false;
        }
        let head = self.body[0];
        let fits = match self.direction {
            Direction::Up => head.y > 0,
            Direction::Right => head.x < u16::MAX,
            Direction::Down => head.y < u16::MAX,
            Direction::Left => head.x > 0,
        };
        if !fits {
            return false;
        }
        let next = head.transform(self.direction, 1);
        let ghost middle = self@.body.subrange(1, len - 1);
        let mut i: usize = 1;
        while i < len - 1
            invariant
                1 <= i <= len - 1,
                len == self.body@.len(),
                middle == self.body@.subrange(1, len - 1),
                next == next_head(self@),
                can_shift(self@.body[0], self@.direction, 1),
                forall|j: int| 1 <= j < i ==> self.body@[j] != next,
            decreases len - i,
        {
            if self.body[i] == next {
                assert(self@.body == self.body@);
                assert(middle[i - 1] == next);
                assert(middle.contains(next));
                return true;
            }
            i = i + 1;
        }
        assert(!middle.contains(next)) by {
            assert forall|k: int| 0 <= k < middle.len() implies middle[k] != next by {
                assert(middle[k] == self.body@[k + 1]);
            }
        }
        false
    }

    /// Whether the head stands on the board's edge on the side it is heading toward.
    pub fn hit_wall(&self, width: u16, height: u16) -> (r: bool)
        requires
            self.inv(),
            width >= 1,
            height >= 1,
        ensures
            r == at_wall(self@.body[0], self@.direction, width as int, height as int),
    {
        let head_point = self.get_head();
        match self.get_direction() {
            Direction::Up => head_point.y == 0,
            Direction::Right => head_point.x == width - 1,
            Direction::Down => head_point.y == height - 1,
            Direction::Left => head_point.x == 0,
        }
    }
}

} // verus!
