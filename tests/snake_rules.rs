use snake::{is_out_of_bounds, Cell, Direction, Food, Snake, GRID_HEIGHT, GRID_WIDTH};

fn cell(x: i32, y: i32) -> Cell {
    Cell { x, y }
}

fn snake_of(cells: &[(i32, i32)], heading: Direction, pending_growth: bool) -> Snake {
    let body: Vec<Cell> = cells.iter().map(|&(x, y)| cell(x, y)).collect();
    Snake::from_parts(body, heading, pending_growth).expect("non-empty body")
}

#[test]
fn initial_snake_advances_up_keeping_length() {
    let mut s = Snake::new();
    assert_eq!(s.body(), &vec![cell(20, 20), cell(19, 20)]);
    assert_eq!(s.heading(), Direction::Up);
    assert!(!s.pending_growth());
    s.advance();
    assert_eq!(s.body(), &vec![cell(20, 19), cell(20, 20)]);
    assert_eq!(s.len(), 2);
    assert!(!s.pending_growth());
}

#[test]
fn pending_growth_adds_one_cell_and_clears() {
    let mut s = snake_of(&[(5, 5), (4, 5), (3, 5)], Direction::Right, true);
    s.advance();
    assert_eq!(s.body(), &vec![cell(6, 5), cell(5, 5), cell(4, 5), cell(3, 5)]);
    assert_eq!(s.len(), 4);
    assert!(!s.pending_growth());
}

#[test]
fn advance_keeps_length_in_every_direction() {
    for (d, next) in [
        (Direction::Left, (9, 10)),
        (Direction::Right, (11, 10)),
        (Direction::Up, (10, 9)),
        (Direction::Down, (10, 11)),
    ] {
        let mut s = snake_of(&[(10, 10), (10, 11), (10, 12)], d, false);
        s.advance();
        assert_eq!(s.len(), 3);
        assert_eq!(s.head(), cell(next.0, next.1));
        assert_eq!(s.body()[1], cell(10, 10));
        assert_eq!(s.body()[2], cell(10, 11));
    }
}

#[test]
fn mark_growth_twice_grows_once() {
    let mut s = snake_of(&[(5, 5), (4, 5)], Direction::Right, false);
    s.mark_growth();
    s.mark_growth();
    assert!(s.pending_growth());
    s.advance();
    assert_eq!(s.len(), 3);
    s.advance();
    assert_eq!(s.len(), 3);
}

#[test]
fn leaving_the_left_edge_kills() {
    let mut s = snake_of(&[(0, 5), (1, 5)], Direction::Left, false);
    assert!(!s.is_dead());
    s.advance();
    assert_eq!(s.head(), cell(-1, 5));
    assert!(s.is_dead());
    assert!(s.is_dead());
}

#[test]
fn heads_off_the_grid_are_dead() {
    for (x, y) in [(-1, 0), (GRID_WIDTH, 0), (0, -1), (0, GRID_HEIGHT), (-5, 40), (i32::MIN, i32::MAX)] {
        let s = snake_of(&[(x, y)], Direction::Up, false);
        assert!(s.is_dead(), "head at ({}, {})", x, y);
    }
}

#[test]
fn heads_on_the_grid_corners_live() {
    for (x, y) in [(0, 0), (GRID_WIDTH - 1, 0), (0, GRID_HEIGHT - 1), (GRID_WIDTH - 1, GRID_HEIGHT - 1)] {
        let s = snake_of(&[(x, y)], Direction::Up, false);
        assert!(!s.is_dead());
    }
}

#[test]
fn head_on_own_body_is_dead() {
    let s = snake_of(&[(3, 3), (4, 3), (4, 4), (3, 4), (3, 3)], Direction::Up, false);
    assert!(s.is_dead());
    let t = snake_of(&[(3, 3), (3, 3)], Direction::Up, false);
    assert!(t.is_dead());
}

#[test]
fn reversing_into_the_neck_kills() {
    let mut s = snake_of(&[(5, 5), (4, 5), (3, 5)], Direction::Right, false);
    s.set_heading(Direction::Left);
    s.advance();
    assert_eq!(s.head(), cell(4, 5));
    assert!(s.is_dead());
}

#[test]
fn empty_body_is_refused() {
    assert!(Snake::from_parts(Vec::new(), Direction::Up, false).is_none());
}

#[test]
fn occupies_matches_body() {
    let s = snake_of(&[(1, 1), (2, 1)], Direction::Up, false);
    assert!(s.occupies(cell(1, 1)));
    assert!(s.occupies(cell(2, 1)));
    assert!(!s.occupies(cell(3, 1)));
}

#[test]
fn out_of_bounds_edges() {
    assert!(!is_out_of_bounds(0, 0));
    assert!(!is_out_of_bounds(29, 29));
    assert!(is_out_of_bounds(30, 0));
    assert!(is_out_of_bounds(0, 30));
    assert!(is_out_of_bounds(-1, 3));
    assert!(is_out_of_bounds(3, -1));
}

#[test]
fn direction_deltas() {
    assert_eq!(Direction::Left.delta(), (-1, 0));
    assert_eq!(Direction::Right.delta(), (1, 0));
    assert_eq!(Direction::Up.delta(), (0, -1));
    assert_eq!(Direction::Down.delta(), (0, 1));
    assert_eq!(cell(3, 4).step(Direction::Down), cell(3, 5));
}

#[test]
fn place_refuses_snake_and_off_grid_cells() {
    let s = snake_of(&[(1, 1), (2, 1)], Direction::Up, false);
    assert_eq!(Food::place(&s, cell(1, 1)), None);
    assert_eq!(Food::place(&s, cell(-1, 1)), None);
    assert_eq!(Food::place(&s, cell(1, 30)), None);
    assert_eq!(Food::place(&s, cell(3, 1)), Some(Food { position: cell(3, 1) }));
}

/// A body covering the whole grid but the cells in `free`.
fn body_without(free: &[(i32, i32)]) -> Vec<Cell> {
    let mut body = Vec::new();
    for y in 0..GRID_HEIGHT {
        for x in 0..GRID_WIDTH {
            if !free.contains(&(x, y)) {
                body.push(cell(x, y));
            }
        }
    }
    body
}

#[test]
fn free_cells_of_a_nearly_full_grid() {
    let s = Snake::from_parts(body_without(&[(7, 3), (0, 29)]), Direction::Up, false).unwrap();
    assert_eq!(Food::free_cells(&s), vec![cell(7, 3), cell(0, 29)]);
    let t = Snake::new();
    let free = Food::free_cells(&t);
    assert_eq!(free.len(), 898);
    assert_eq!(free[0], cell(0, 0));
    assert!(!free.contains(&cell(20, 20)));
}

#[test]
fn spawn_finds_the_only_free_cell() {
    let s = Snake::from_parts(body_without(&[(17, 23)]), Direction::Up, false).unwrap();
    for _ in 0..5 {
        assert_eq!(Food::spawn(&s), Some(Food { position: cell(17, 23) }));
    }
}

#[test]
fn spawn_on_a_full_grid_gives_nothing() {
    let s = Snake::from_parts(body_without(&[]), Direction::Up, false).unwrap();
    assert_eq!(Food::spawn(&s), None);
    assert!(Food::free_cells(&s).is_empty());
}

#[test]
fn spawn_avoids_random_bodies() {
    // A small deterministic generator picks which cells stay free.
    let mut seed: u64 = 0x2545_f491_4f6c_dd1d;
    for round in 0..40 {
        let mut free = Vec::new();
        let n_free = 1 + round % 7;
        while free.len() < n_free {
            seed ^= seed << 13;
            seed ^= seed >> 7;
            seed ^= seed << 17;
            let x = (seed % 30) as i32;
            let y = ((seed >> 8) % 30) as i32;
            if !free.contains(&(x, y)) {
                free.push((x, y));
            }
        }
        let s = Snake::from_parts(body_without(&free), Direction::Up, false).unwrap();
        let f = Food::spawn(&s).expect("a free cell exists");
        assert!(free.contains(&(f.position.x, f.position.y)));
        assert!(!s.occupies(f.position));
    }
}

#[test]
fn spawn_on_an_open_grid_lands_on_the_grid() {
    let s = Snake::new();
    for _ in 0..200 {
        let f = Food::spawn(&s).unwrap();
        assert!(!is_out_of_bounds(f.position.x, f.position.y));
        assert!(!s.occupies(f.position));
    }
}
