use vstd::prelude::*;

use crate::point::Point;

verus! {

/// Whether `q` is the cell right below `b`.
pub open spec fn is_below(q: Point, b: Point) -> bool {
    q.x == b.x && q.y == b.y + 1
}

/// Whether `q` is the cell right above `b`.
pub open spec fn is_above(q: Point, b: Point) -> bool {
    q.x == b.x && q.y + 1 == b.y
}

/// Whether `q` is the cell right of `b`.
pub open spec fn is_right_of(q: Point, b: Point) -> bool {
    q.y == b.y && q.x == b.x + 1
}

/// Whether `q` is the cell left of `b`.
pub open spec fn is_left_of(q: Point, b: Point) -> bool {
    q.y == b.y && q.x + 1 == b.x
}

/// Whether the two neighbours `p` and `n` of `b` are, in either order, the cells
/// picked out by `first` and `second`.
pub open spec fn joins(
    p: Point,
    n: Point,
    b: Point,
    first: spec_fn(Point, Point) -> bool,
    second: spec_fn(Point, Point) -> bool,
) -> bool {
    (first(n, b) && second(p, b)) || (first(p, b) && second(n, b))
}

/// The glyph of a body segment `b` between its neighbours toward the head (`previous`)
/// and toward the tail (`next`): the head is `O`, a straight piece is a double line
/// along its axis, a bend is the corner that joins its two neighbours. A segment with
/// no neighbour has no glyph.
pub open spec fn symbol_for(previous: Option<Point>, b: Point, next: Option<Point>) -> Option<char> {
    match (previous, next) {
        (Some(p), Some(n)) => Some(
            if p.x == n.x {
                '║'
            } else if p.y == n.y {
                '═'
            } else if joins(p, n, b, |q, c| is_below(q, c), |q, c| is_right_of(q, c)) {
                '╔'
            } else if joins(p, n, b, |q, c| is_below(q, c), |q, c| is_left_of(q, c)) {
                '╗'
            } else if joins(p, n, b, |q, c| is_above(q, c), |q, c| is_right_of(q, c)) {
                '╚'
            } else {
                '╝'
            },
        ),
        (None, Some(_)) => Some('O'),
        (Some(p), None) => Some(
            if b.y == p.y {
                '═'
            } else {
                '║'
            },
        ),
        (None, None) => None,
    }
}

/// The neighbour of segment `i` toward the head, if any.
pub open spec fn before_segment(body: Seq<Point>, i: int) -> Option<Point> {
    if i == 0 {
        None
    } else {
        Some(body[i - 1])
    }
}

/// The neighbour of segment `i` toward the tail, if any.
pub open spec fn after_segment(body: Seq<Point>, i: int) -> Option<Point> {
    if i + 1 < body.len() {
        Some(body[i + 1])
    } else {
        None
    }
}

fn below(q: Point, b: Point) -> (r: bool)
    ensures
        r == is_below(q, b),
{
    q.x == b.x && b.y < u16::MAX && q.y == b.y + 1
}

fn above(q: Point, b: Point) -> (r: bool)
    ensures
        r == is_above(q, b),
{
    q.x == b.x && q.y < u16::MAX && q.y + 1 == b.y
}

fn right_of(q: Point, b: Point) -> (r: bool)
    ensures
        r == is_right_of(q, b),
{
    q.y == b.y && b.x < u16::MAX && q.x == b.x + 1
}

fn left_of(q: Point, b: Point) -> (r: bool)
    ensures
        r == is_left_of(q, b),
{
    q.y == b.y && q.x < u16::MAX && q.x + 1 == b.x
}

/// The glyph for segment `b` given its neighbours.
pub fn segment_symbol(previous: Option<Point>, b: Point, next: Option<Point>) -> (r: Option<char>)
    ensures
        r == symbol_for(previous, b, next),
{
    match (previous, next) {
        (Some(p), Some(n)) => {
            let c = if p.x == n.x {
                '║'
            } else if p.y == n.y {
                '═'
            } else if (below(n, b) && right_of(p, b)) || (below(p, b) && right_of(n, b)) {
                '╔'
            } else if (below(n, b) && left_of(p, b)) || (below(p, b) && left_of(n, b)) {
                '╗'
            } else if (above(n, b) && right_of(p, b)) || (above(p, b) && right_of(n, b)) {
                '╚'
            } else {
                '╝'
            };
            Some(c)
        },
        (None, Some(_)) => Some('O'),
        (Some(p), None) => Some(
            if b.y == p.y {
                '═'
            } else {
                '║'
            },
        ),
        (None, None) => None,
    }
}

/// The glyph of every segment of a body, head first; `None` for a body of a single
/// segment, which has no glyph.
pub fn body_symbols(body: &Vec<Point>) -> (r: Option<Vec<char>>)
    ensures
        r is None <==> body@.len() == 1,
        r matches Some(v) ==> v@.len() == body@.len() && forall|i: int|
            0 <= i < body@.len() ==> symbol_for(
                before_segment(body@, i),
                body@[i],
                after_segment(body@, i),
            ) == Some(#[trigger] v@[i]),
{
    let len = body.len();
    if len == 1 {
        return None;
    }
    let mut symbols: Vec<char> = Vec::new();
    let mut i: usize = 0;
    while i < len
        invariant
            len == body@.len(),
            i <= len,
            len != 1,
            symbols@.len() == i,
            forall|j: int|
                0 <= j < i ==> symbol_for(before_segment(body@, j), body@[j], after_segment(body@, j))
                    == Some(#[trigger] symbols@[j]),
        decreases len - i,
    {
        let previous = if i == 0 {
            None
        } else {
            Some(body[i - 1])
        };
        let next = if i + 1 < len {
            Some(body[i + 1])
        } else {
            None
        };
        match segment_symbol(previous, body[i], next) {
            Some(c) => symbols.push(c),
            None => {
                return None;
            },
        }
        i = i + 1;
    }
    Some(symbols)
}

} // verus!
