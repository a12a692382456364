use vstd::prelude::*;

use crate::direction::{opposite_of, Direction};
use crate::point::{can_shift, shift, Point};
use crate::random::random_below;
use crate::snake::{at_wall, bites_itself, slithered, Snake, SnakeModel};

verus! {

/// Tick length at speed 0, in milliseconds.
pub const MAX_INTERVAL: u16 = 700;

/// Tick length at full speed, in milliseconds.
pub const MIN_INTERVAL: u16 = 200;

/// The speed level at which ticks are shortest.
pub const MAX_SPEED: u16 = 20;

/// Length of the snake at the start of a game.
pub const START_LENGTH: u16 = 3;

/// Tick length in milliseconds at the given speed; levels past `MAX_SPEED` change nothing.
pub open spec fn interval_ms(speed: int) -> int {
    let level = if speed < MAX_SPEED { speed } else { MAX_SPEED as int };
    MIN_INTERVAL + ((MAX_INTERVAL - MIN_INTERVAL) / (MAX_SPEED as int)) * (MAX_SPEED - level)
}

/// The number of points between two speed-ups on a `width` by `height` board.
pub open spec fn points_per_level(width: int, height: int) -> int {
    (width * height) / (MAX_SPEED as int)
}

/// Whether `p` lies on a `width` by `height` board.
pub open spec fn on_board(p: Point, width: int, height: int) -> bool {
    p.x < width && p.y < height
}

/// Whether `p` is a cell of the board that the snake does not occupy.
pub open spec fn free_cell(snake: SnakeModel, width: int, height: int, p: Point) -> bool {
    on_board(p, width, height) && !snake.body.contains(p)
}

/// The abstract state of a game.
pub ghost struct GameModel {
    pub width: int,
    pub height: int,
    pub food: Option<Point>,
    pub snake: SnakeModel,
    pub speed: int,
    pub score: int,
}

impl GameModel {
    /// The board admits a game: it is large enough for the starting snake and
    /// for the speed ramp, and its area fits a score.
    pub open spec fn board_ok(self) -> bool {
        &&& self.width >= 4
        &&& self.height >= 4
        &&& MAX_SPEED <= self.width * self.height <= u16::MAX
    }

    pub open spec fn wf(self) -> bool {
        &&& self.board_ok()
        &&& self.snake.wf()
        &&& on_board(self.snake.body[0], self.width, self.height)
        &&& self.speed == self.score / points_per_level(self.width, self.height)
        &&& self.snake.speed == self.speed
        &&& 0 <= self.score <= u16::MAX
        &&& (self.food matches Some(p) ==> free_cell(self.snake, self.width, self.height, p))
    }

    /// Whether the next advance would leave the board or run into the body.
    pub open spec fn collides(self) -> bool {
        at_wall(self.snake.body[0], self.snake.direction, self.width, self.height)
            || bites_itself(self.snake)
    }
}

pub struct Game {
    width: u16,
    height: u16,
    food: Option<Point>,
    snake: Snake,
    speed: u16,
    score: u16,
}

impl View for Game {
    type V = GameModel;

    closed spec fn view(&self) -> GameModel {
        GameModel {
            width: self.width as int,
            height: self.height as int,
            food: self.food,
            snake: self.snake@,
            speed: self.speed as int,
            score: self.score as int,
        }
    }
}

/// The tick length starts at `MAX_INTERVAL` at speed 0, shrinks with each level, and
/// stays at `MIN_INTERVAL` from `MAX_SPEED` on.
pub proof fn lemma_interval_range(speed: int)
    requires
        speed >= 0,
    ensures
        MIN_INTERVAL <= interval_ms(speed) <= MAX_INTERVAL,
        interval_ms(0) == MAX_INTERVAL,
        speed >= MAX_SPEED ==> interval_ms(speed) == MIN_INTERVAL,
        speed < MAX_SPEED ==> interval_ms(speed + 1) < interval_ms(speed),
{
    assert((MAX_INTERVAL - MIN_INTERVAL) / (MAX_SPEED as int) == 25);
    let level = if speed < MAX_SPEED { speed } else { MAX_SPEED as int };
    assert(25 * (MAX_SPEED - level) <= 500) by (nonlinear_arith)
        requires
            0 <= level <= 20,
    ;
}

/// Of two consecutive scores, the second starts a new level exactly when it is a
/// multiple of the level size.
proof fn lemma_level_of_next(s: int, d: int)
    requires
        s >= 0,
        d > 0,
    ensures
        (s + 1) % d == 0 ==> (s + 1) / d == s / d + 1,
        (s + 1) % d != 0 ==> (s + 1) / d == s / d,
{
    vstd::arithmetic::div_mod::lemma_fundamental_div_mod(s, d);
    vstd::arithmetic::div_mod::lemma_fundamental_div_mod(s + 1, d);
    let q0 = s / d;
    let q1 = (s + 1) / d;
    let r0 = s % d;
    let r1 = (s + 1) % d;
    assert(0 <= r0 < d && 0 <= r1 < d);
    assert(d * q1 + r1 == d * q0 + r0 + 1);
    if r1 == 0 {
        assert(d * (q1 - q0) == r0 + 1) by (nonlinear_arith)
            requires
                d * q1 + r1 == d * q0 + r0 + 1,
                r1 == 0,
        ;
        assert(q1 - q0 == 1) by (nonlinear_arith)
            requires
                d * (q1 - q0) == r0 + 1,
                0 <= r0 < d,
        ;
    } else {
        assert(d * (q1 - q0) == r0 + 1 - r1) by (nonlinear_arith)
            requires
                d * q1 + r1 == d * q0 + r0 + 1,
        ;
        assert(q1 - q0 == 0) by (nonlinear_arith)
            requires
                d * (q1 - q0) == r0 + 1 - r1,
                0 <= r0 < d,
                0 < r1 < d,
        ;
    }
}

impl Game {
    pub open spec fn inv(&self) -> bool {
        self@.wf()
    }

    /// A game on a `width` by `height` board with the snake facing a random heading.
    pub fn new(width: u16, height: u16) -> (r: Self)
        requires
            width >= 4,
            height >= 4,
            MAX_SPEED <= width * height <= u16::MAX,
        ensures
            r.inv(),
            r@.width == width,
            r@.height == height,
            r@.food is None,
            r@.score == 0,
            r@.speed == 0,
            !r@.snake.digesting,
            r@.snake.speed == 0,
            r@.snake.body.len() == START_LENGTH,
            forall|i: int|
                0 <= i < START_LENGTH ==> #[trigger] r@.snake.body[i] == shift(
                    Point { x: width / 2, y: height / 2 },
                    opposite_of(r@.snake.direction),
                    i,
                ),
    {
        let direction = match random_below(4) {
            0 => Direction::Up,
            1 => Direction::Right,
            2 => Direction::Down,
            _ => Direction::Left,
        };
        Self::with_direction(width, height, direction)
    }

    /// A game on a `width` by `height` board with the snake, three segments long,
    /// centred and facing `direction`.
    pub fn with_direction(width: u16, height: u16, direction: Direction) -> (r: Self)
        requires
            width >= 4,
            height >= 4,
            MAX_SPEED <= width * height <= u16::MAX,
        ensures
            r.inv(),
            r@.width == width,
            r@.height == height,
            r@.food is None,
            r@.score == 0,
            r@.speed == 0,
            r@.snake.direction == direction,
            !r@.snake.digesting,
            r@.snake.speed == 0,
            r@.snake.body.len() == START_LENGTH,
            forall|i: int|
                0 <= i < START_LENGTH ==> #[trigger] r@.snake.body[i] == shift(
                    (Point { x: width / 2, y: height / 2 }),
                    opposite_of(direction),
                    i,
                ),
    {
        let start = Point::new(width / 2, height / 2);
        let snake = Snake::new(start, START_LENGTH, 0, direction);
        let r = Self { width, height, food: None, snake, speed: 0, score: 0 };
        assert(r@.snake.body[0] == start);
        assert(0int / points_per_level(width as int, height as int) == 0) by (nonlinear_arith)
            requires
                points_per_level(width as int, height as int) >= 1,
        ;
        r
    }

    /// Every cell of the board that the snake does not occupy, row by row.
    pub fn free_cells(&self) -> (r: Vec<Point>)
        ensures
            forall|p: Point|
                r@.contains(p) <==> free_cell(self@.snake, self@.width, self@.height, p),
    {
        let mut cells: Vec<Point> = Vec::new();
        let mut y: u16 = 0;
        while y < self.height
            invariant
                y <= self.height,
                forall|p: Point|
                    cells@.contains(p) <==> (free_cell(self@.snake, self@.width, self@.height, p)
                        && p.y < y),
            decreases self.height - y,
        {
            let mut x: u16 = 0;
            while x < self.width
                invariant
                    x <= self.width,
                    y < self.height,
                    forall|p: Point|
                        cells@.contains(p) <==> (free_cell(self@.snake, self@.width, self@.height, p)
                            && (p.y < y || (p.y == y && p.x < x))),
                decreases self.width - x,
            {
                let point = Point::new(x, y);
                let ghost before = cells@;
                let taken = self.snake.contains(&point);
                if !taken {
                    cells.push(point);
                    assert forall|p: Point|
                        cells@.contains(p) <==> (before.contains(p) || p == point) by {
                        if p == point {
                            assert(cells@[before.len() as int] == p);
                        }
                        if before.contains(p) {
                            let k = choose|k: int| 0 <= k < before.len() && before[k] == p;
                            assert(cells@[k] == p);
                        }
                        if cells@.contains(p) && p != point {
                            let k = choose|k: int| 0 <= k < cells@.len() && cells@[k] == p;
                            assert(before[k] == p);
                        }
                    }
                }
                assert forall|p: Point|
                    cells@.contains(p) <==> (free_cell(self@.snake, self@.width, self@.height, p)
                        && (p.y < y || (p.y == y && p.x < x + 1))) by {
                    assert(before.contains(p) <==> (free_cell(self@.snake, self@.width, self@.height, p)
                        && (p.y < y || (p.y == y && p.x < x))));
                    assert(cells@.contains(p) <==> (before.contains(p) || (!taken && p == point)));
                    if p.y == y && p.x == x {
                        assert(p == point);
                        assert(on_board(p, self@.width, self@.height));
                        assert(taken == self@.snake.body.contains(p));
                    }
                }
                x = x + 1;
            }
            y = y + 1;
        }
        cells
    }

    /// Puts the food on a cell drawn at random among those the snake leaves free,
    /// or takes it away when there is none.
    pub fn place_food(&mut self)
        ensures
            final(self)@ == (GameModel { food: final(self)@.food, ..old(self)@ }),
            final(self)@.food matches Some(p) ==> free_cell(
                old(self)@.snake,
                old(self)@.width,
                old(self)@.height,
                p,
            ),
            final(self)@.food is None <==> forall|p: Point|
                !free_cell(old(self)@.snake, old(self)@.width, old(self)@.height, p),
    {
        let cells = self.free_cells();
        if cells.len() == 0 {
            self.food = None;
            assert forall|p: Point|
                !free_cell(old(self)@.snake, old(self)@.width, old(self)@.height, p) by {
                assert(!cells@.contains(p));
            }
        } else {
            let i = random_below(cells.len());
            let p = cells[i];
            assert(cells@.contains(p));
            assert(free_cell(self@.snake, self@.width, self@.height, p));
            self.food = Some(p);
        }
    }

    /// Tick length in milliseconds for the current speed.
    pub fn calculate_interval(&self) -> (r: u64)
        ensures
            r == interval_ms(self@.speed),
    {
        let level = if self.speed < MAX_SPEED {
            self.speed
        } else {
            MAX_SPEED
        };
        let speed = (MAX_SPEED - level) as u64;
        let step = ((MAX_INTERVAL - MIN_INTERVAL) / MAX_SPEED) as u64;
        assert(step * speed <= 500) by (nonlinear_arith)
            requires
                step == 25,
                speed <= 20,
        ;
        MIN_INTERVAL as u64 + step * speed
    }

    /// Applies a turn asked for during a tick whose heading was `heading` at its start:
    /// a turn to that heading or to its opposite is ignored.
    pub fn turn(&mut self, heading: Direction, toward: Direction)
        requires
            old(self).inv(),
        ensures
            final(self).inv(),
            toward != heading && toward != opposite_of(heading) ==> final(self)@ == (GameModel {
                snake: SnakeModel { direction: toward, ..old(self)@.snake },
                ..old(self)@
            }),
            toward == heading || toward == opposite_of(heading) ==> final(self)@ == old(self)@,
    {
        if heading != toward && heading.opposite() != toward {
            self.snake.set_direction(toward);
        }
    }

    /// Ends a tick: returns false, changing nothing, when the next advance would hit a
    /// wall or the body; otherwise advances the snake and, when its head reaches the
    /// food, makes it grow, scores a point, moves the food and raises the speed each
    /// time the score reaches a multiple of the level size. The score stops at
    /// `u16::MAX`.
    pub fn tick(&mut self) -> (r: bool)
        requires
            old(self).inv(),
        ensures
            final(self).inv(),
            r == !old(self)@.collides(),
            !r ==> final(self)@ == old(self)@,
            r ==> final(self)@.snake.body == slithered(old(self)@.snake),
            r ==> final(self)@.snake.direction == old(self)@.snake.direction,
            r ==> final(self)@.width == old(self)@.width && final(self)@.height == old(self)@.height,
            r && old(self)@.food != Some(slithered(old(self)@.snake)[0]) ==> final(self)@ == (
            GameModel {
                snake: SnakeModel {
                    body: slithered(old(self)@.snake),
                    digesting: false,
                    ..old(self)@.snake
                },
                ..old(self)@
            }),
            r && old(self)@.food == Some(slithered(old(self)@.snake)[0]) ==> {
                &&& final(self)@.snake.digesting
                &&& final(self)@.score == if old(self)@.score < u16::MAX {
                    old(self)@.score + 1
                } else {
                    old(self)@.score
                }
                &&& final(self)@.speed == final(self)@.score / points_per_level(
                    old(self)@.width,
                    old(self)@.height,
                )
                &&& final(self)@.food is None <==> forall|p: Point|
                    !free_cell(final(self)@.snake, final(self)@.width, final(self)@.height, p)
            },
    {
        let ghost before = self@;
        if self.snake.hit_wall(self.width, self.height) || self.snake.bit_self() {
            return false;
        }
        self.snake.slither();
        proof {
            crate::snake::lemma_slither_length(before.snake);
        }
        let head = self.snake.get_head();
        let ate = match self.food {
            Some(food_pt) => head == food_pt,
            None => false,
        };
        if ate {
            self.snake.grow();
            self.place_food();
            let ghost placed = self@;
            if self.score < u16::MAX {
                let per_level = (self.width * self.height) / MAX_SPEED;
                proof {
                    lemma_level_of_next(self.score as int, per_level as int);
                }
                self.score = self.score + 1;
                if self.score % per_level == 0 {
                    self.speed = self.speed + 1;
                    self.snake.set_speed(self.speed);
                }
            }
            proof {
                if let Some(p) = placed.food {
                    assert(free_cell(placed.snake, placed.width, placed.height, p));
                    assert(free_cell(self@.snake, self@.width, self@.height, p));
                } else {
                    assert forall|p: Point| !free_cell(self@.snake, self@.width, self@.height, p) by {
                        assert(!free_cell(placed.snake, placed.width, placed.height, p));
                    }
                }
            }
        } else {
            assert(self@.food matches Some(p) ==> !self@.snake.body.contains(p)) by {
                if let Some(p) = self@.food {
                    if self@.snake.body.contains(p) {
                        let k = choose|k: int| 0 <= k < self@.snake.body.len() && self@.snake.body[k] == p;
                        assert(k != 0);
                        assert(before.snake.body[k - 1] == p);
                    }
                }
            }
        }
        true
    }

    pub fn get_snake(&self) -> (r: &Snake)
        ensures
            r@ == self@.snake,
    {
        &self.snake
    }

    pub fn get_food(&self) -> (r: Option<Point>)
        ensures
            r == self@.food,
    {
        self.food
    }

    pub fn get_score(&self) -> (r: u16)
        ensures
            r == self@.score,
    {
        self.score
    }

    pub fn get_speed(&self) -> (r: u16)
        ensures
            r == self@.speed,
    {
        self.speed
    }

    pub fn get_width(&self) -> (r: u16)
        ensures
            r == self@.width,
    {
        self.width
    }

    pub fn get_height(&self) -> (r: u16)
        ensures
            r == self@.height,
    {
        self.height
    }
}

} // verus!
