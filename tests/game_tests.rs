use snake::direction::Direction;
use snake::game::{Game, MAX_INTERVAL, MIN_INTERVAL};
use snake::point::Point;

fn p(x: u16, y: u16) -> Point {
    Point::new(x, y)
}

#[test]
fn new_game_centres_a_three_segment_snake() {
    let g = Game::new(25, 15);
    assert_eq!(g.get_snake().get_head(), p(12, 7));
    assert_eq!(g.get_snake().get_body().len(), 3);
    assert_eq!(g.get_score(), 0);
    assert_eq!(g.get_speed(), 0);
    assert_eq!(g.get_food(), None);
    assert_eq!((g.get_width(), g.get_height()), (25, 15));
}

#[test]
fn game_with_fixed_heading() {
    let g = Game::with_direction(10, 10, Direction::Right);
    assert_eq!(g.get_snake().get_body(), vec![p(5, 5), p(4, 5), p(3, 5)]);
    assert_eq!(g.get_snake().get_direction(), Direction::Right);
    assert_eq!(g.calculate_interval(), MAX_INTERVAL as u64);
}

#[test]
fn illegal_turns_are_ignored() {
    let mut g = Game::with_direction(10, 10, Direction::Right);
    g.turn(Direction::Right, Direction::Right);
    assert_eq!(g.get_snake().get_direction(), Direction::Right);
    g.turn(Direction::Right, Direction::Left);
    assert_eq!(g.get_snake().get_direction(), Direction::Right);
    g.turn(Direction::Right, Direction::Up);
    assert_eq!(g.get_snake().get_direction(), Direction::Up);
    // Legality is judged against the heading at the start of the tick.
    g.turn(Direction::Right, Direction::Down);
    assert_eq!(g.get_snake().get_direction(), Direction::Down);
    g.turn(Direction::Right, Direction::Left);
    assert_eq!(g.get_snake().get_direction(), Direction::Down);
}

#[test]
fn ticks_move_until_the_wall() {
    let mut g = Game::with_direction(10, 10, Direction::Right);
    for step in 1..=4u16 {
        assert!(g.tick());
        assert_eq!(g.get_snake().get_head(), p(5 + step, 5));
        assert_eq!(g.get_snake().get_body().len(), 3);
    }
    assert!(g.get_snake().hit_wall(10, 10));
    let before = g.get_snake().get_body();
    assert!(!g.tick());
    assert_eq!(g.get_snake().get_body(), before);
    assert_eq!(g.get_score(), 0);
}

#[test]
fn food_never_lands_on_the_snake() {
    let mut g = Game::with_direction(5, 4, Direction::Up);
    for _ in 0..500 {
        g.place_food();
        let food = g.get_food().expect("a free cell exists");
        assert!(!g.get_snake().contains(&food));
        assert!(food.x < 5 && food.y < 4);
    }
}

#[test]
fn free_cells_leave_out_the_snake() {
    let g = Game::with_direction(10, 10, Direction::Right);
    let cells = g.free_cells();
    assert_eq!(cells.len(), 97);
    assert!(!cells.contains(&p(5, 5)));
    assert!(!cells.contains(&p(3, 5)));
    assert!(cells.contains(&p(0, 0)));
    assert!(cells.contains(&p(9, 9)));
}

/// Heading that walks a Hamiltonian cycle of a 10 by 10 board: along the top row to
/// the right, then in a serpentine over columns 1 to 9, and back up column 0.
fn cycle_heading(head: Point) -> Direction {
    let (x, y) = (head.x, head.y);
    if x == 0 {
        if y == 0 { Direction::Right } else { Direction::Up }
    } else if y == 0 {
        if x < 9 { Direction::Right } else { Direction::Down }
    } else if y % 2 == 1 {
        if x > 1 { Direction::Left } else if y == 9 { Direction::Left } else { Direction::Down }
    } else if x < 9 {
        Direction::Right
    } else {
        Direction::Down
    }
}

#[test]
fn speed_rises_every_five_points_on_a_hundred_cell_board() {
    let mut g = Game::with_direction(10, 10, Direction::Left);
    g.place_food();
    let mut speed_ups = Vec::new();
    let mut ticks = 0;
    while g.get_score() < 16 {
        let heading = g.get_snake().get_direction();
        g.turn(heading, cycle_heading(g.get_snake().get_head()));
        let score = g.get_score();
        let speed = g.get_speed();
        assert!(g.tick());
        if g.get_speed() != speed {
            assert_eq!(g.get_speed(), speed + 1);
            speed_ups.push(g.get_score());
        }
        assert_eq!(g.get_speed(), g.get_score() / 5);
        assert_eq!(g.get_snake().get_speed(), g.get_speed());
        assert!(g.get_score() == score || g.get_score() == score + 1);
        assert_eq!(g.calculate_interval(), 700 - 25 * g.get_speed() as u64);
        ticks += 1;
        assert!(ticks < 5000);
    }
    assert_eq!(speed_ups, vec![5, 10, 15]);
    assert_eq!(g.get_snake().get_body().len(), 3 + 16 - 1);
}

#[test]
fn interval_bounds() {
    assert_eq!(MAX_INTERVAL, 700);
    assert_eq!(MIN_INTERVAL, 200);
}
