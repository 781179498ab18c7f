//! Food: one cell, placed at random where the snake is not.

use vstd::prelude::*;

use crate::grid::{Cell, GRID_HEIGHT, GRID_WIDTH};
use crate::snake::Snake;

verus! {

/// Random draws tried before falling back to a draw among the free cells.
pub const SPAWN_ATTEMPTS: u32 = 64;

/// Whether some cell of the grid is not covered by `body`.
pub open spec fn has_free_cell(body: Seq<Cell>) -> bool {
    exists|c: Cell| c.on_grid() && !#[trigger] body.contains(c)
}

/// Whether `a` comes before `b` in row-major order.
pub open spec fn precedes(a: Cell, b: Cell) -> bool {
    a.y < b.y || (a.y == b.y && a.x < b.x)
}

/// Relies on macroquad::rand::gen_range (quad-rand's process-wide
/// generator): for `0 <= low < high` it returns a value in `[low, high)`.
#[verifier::external_body]
fn random_below(high: i32) -> (r: i32)
    requires
        0 < high,
    ensures
        0 <= r < high,
{
    macroquad::rand::gen_range(0, high)
}

/// A piece of food on the grid.
#[derive(Clone, Copy, Debug, PartialEq, Eq, Structural)]
pub struct Food {
    pub position: Cell,
}

impl Food {
    /// Food at `c`, when `c` lies on the grid and the snake does not cover it.
    pub fn place(snake: &Snake, c: Cell) -> (r: Option<Food>)
        ensures
            r is Some <==> c.on_grid() && !snake@.body.contains(c),
            r matches Some(f) ==> f.position == c,
    {
        if crate::grid::is_out_of_bounds(c.x, c.y) || snake.occupies(c) {
            None
        } else {
            Some(Food { position: c })
        }
    }

    /// Every cell of the grid that the snake does not cover, in row-major order.
    pub fn free_cells(snake: &Snake) -> (r: Vec<Cell>)
        ensures
            forall|i: int|
                0 <= i < r@.len() ==> (#[trigger] r@[i]).on_grid() && !snake@.body.contains(r@[i]),
            forall|c: Cell| c.on_grid() && !snake@.body.contains(c) ==> #[trigger] r@.contains(c),
            forall|i: int, j: int| 0 <= i < j < r@.len() ==> precedes(r@[i], r@[j]),
            r@.len() <= GRID_WIDTH * GRID_HEIGHT,
    {
        let mut r: Vec<Cell> = Vec::new();
        let mut y: i32 = 0;
        while y < GRID_HEIGHT
            invariant
                0 <= y <= GRID_HEIGHT,
                r@.len() <= y * GRID_WIDTH,
                forall|i: int|
                    0 <= i < r@.len() ==> (#[trigger] r@[i]).on_grid() && !snake@.body.contains(
                        r@[i],
                    ),
                forall|c: Cell|
                    c.on_grid() && !snake@.body.contains(c) && c.y < y ==> #[trigger] r@.contains(
                        c,
                    ),
                forall|i: int| 0 <= i < r@.len() ==> (#[trigger] r@[i]).y < y,
                forall|i: int, j: int| 0 <= i < j < r@.len() ==> precedes(r@[i], r@[j]),
            decreases GRID_HEIGHT - y,
        {
            let mut x: i32 = 0;
            while x < GRID_WIDTH
                invariant
                    0 <= y < GRID_HEIGHT,
                    0 <= x <= GRID_WIDTH,
                    r@.len() <= y * GRID_WIDTH + x,
                    forall|i: int|
                        0 <= i < r@.len() ==> (#[trigger] r@[i]).on_grid()
                            && !snake@.body.contains(r@[i]),
                    forall|c: Cell|
                        c.on_grid() && !snake@.body.contains(c) && precedes(c, Cell { x, y })
                            ==> #[trigger] r@.contains(c),
                    forall|i: int| 0 <= i < r@.len() ==> precedes(#[trigger] r@[i], Cell { x, y }),
                    forall|i: int, j: int| 0 <= i < j < r@.len() ==> precedes(r@[i], r@[j]),
                decreases GRID_WIDTH - x,
            {
                let c = Cell { x, y };
                let ghost before = r@;
                if !snake.occupies(c) {
                    r.push(c);
                    assert(r@[before.len() as int] == c);
                    assert forall|d: Cell|
                        d.on_grid() && !snake@.body.contains(d) && precedes(d, Cell { x: (x + 1) as i32, y })
                            implies #[trigger] r@.contains(d) by {
                        if d == c {
                            assert(r@[before.len() as int] == d);
                        } else {
                            assert(before.contains(d));
                            let k = choose|k: int| 0 <= k < before.len() && before[k] == d;
                            assert(r@[k] == d);
                        }
                    }
                }
                x = x + 1;
            }
            y = y + 1;
        }
        r
    }

    /// New food on a cell of the grid that the snake does not cover; `None`
    /// exactly when the snake covers the whole grid. A bounded number of
    /// uniform draws over the grid is tried first; if all of them hit the
    /// snake, the cell is drawn among the free cells.
    pub fn spawn(snake: &Snake) -> (r: Option<Food>)
        ensures
            r is Some <==> has_free_cell(snake@.body),
            r matches Some(f) ==> f.position.on_grid() && !snake@.body.contains(f.position),
    {
        let mut tries: u32 = 0;
        while tries < SPAWN_ATTEMPTS
            decreases SPAWN_ATTEMPTS - tries,
        {
            let x = random_below(GRID_WIDTH);
            let y = random_below(GRID_HEIGHT);
            let c = Cell { x, y };
            match Self::place(snake, c) {
                Some(f) => {
                    return Some(f);
                },
                None => {},
            }
            tries = tries + 1;
        }
        let free = Self::free_cells(snake);
        if free.len() == 0 {
            assert forall|c: Cell| c.on_grid() implies #[trigger] snake@.body.contains(c) by {
                if !snake@.body.contains(c) {
                    assert(free@.contains(c));
                }
            }
            None
        } else {
            let i = random_below(free.len() as i32);
            let f = Food { position: free[i as usize] };
            assert(f.position == free@[i as int]);
            Some(f)
        }
    }
}

} // verus!
