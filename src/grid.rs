//! Grid geometry: cells, headings and the playing field's bounds.

use vstd::prelude::*;

verus! {

/// Width of the window, in screen units.
pub const SCREEN_WIDTH: i32 = 600;

/// Height of the window, in screen units.
pub const SCREEN_HEIGHT: i32 = 600;

/// Side of one grid cell, in screen units.
pub const BLOCK_SIZE: i32 = 20;

/// Number of columns of the grid: `SCREEN_WIDTH / BLOCK_SIZE`.
pub const GRID_WIDTH: i32 = 30;

/// Number of rows of the grid: `SCREEN_HEIGHT / BLOCK_SIZE`.
pub const GRID_HEIGHT: i32 = 30;

/// One square of the grid; `y` grows downwards.
#[derive(Clone, Copy, Debug, PartialEq, Eq, Structural)]
pub struct Cell {
    pub x: i32,
    pub y: i32,
}

/// A heading: always one of the four unit moves, never standing still.
#[derive(Clone, Copy, Debug, PartialEq, Eq, Structural)]
pub enum Direction {
    Left,
    Right,
    Up,
    Down,
}

/// Whether the coordinates lie on the grid.
pub open spec fn in_grid(x: int, y: int) -> bool {
    0 <= x < GRID_WIDTH as int && 0 <= y < GRID_HEIGHT as int
}

impl Direction {
    /// Column change of one move in this direction.
    pub open spec fn dx(self) -> int {
        match self {
            Direction::Left => -1,
            Direction::Right => 1,
            _ => 0,
        }
    }

    /// Row change of one move in this direction.
    pub open spec fn dy(self) -> int {
        match self {
            Direction::Up => -1,
            Direction::Down => 1,
            _ => 0,
        }
    }

    /// The unit vector of this direction.
    pub fn delta(self) -> (r: (i32, i32))
        ensures
            r.0 as int == self.dx(),
            r.1 as int == self.dy(),
    {
        match self {
            Direction::Left => (-1, 0),
            Direction::Up => (0, -1),
            Direction::Down => (0, 1),
            Direction::Right => (1, 0),
        }
    }
}

impl Cell {
    /// Whether this cell lies on the grid.
    pub open spec fn on_grid(self) -> bool {
        in_grid(self.x as int, self.y as int)
    }

    /// Whether the neighbour in direction `d` is representable.
    pub open spec fn can_step(self, d: Direction) -> bool {
        i32::MIN <= self.x + d.dx() <= i32::MAX && i32::MIN <= self.y + d.dy() <= i32::MAX
    }

    /// The neighbour of this cell in direction `d`.
    pub open spec fn stepped(self, d: Direction) -> Cell
        recommends
            self.can_step(d),
    {
        Cell { x: (self.x + d.dx()) as i32, y: (self.y + d.dy()) as i32 }
    }

    /// The neighbour of this cell in direction `d`.
    pub fn step(self, d: Direction) -> (r: Cell)
        requires
            self.can_step(d),
        ensures
            r == self.stepped(d),
            r.x as int == self.x + d.dx(),
            r.y as int == self.y + d.dy(),
    {
        let (dx, dy) = d.delta();
        Cell { x: self.x + dx, y: self.y + dy }
    }
}

/// Whether the coordinates lie off the grid.
pub fn is_out_of_bounds(x: i32, y: i32) -> (r: bool)
    ensures
        r == !in_grid(x as int, y as int),
{
    x < 0 || x >= GRID_WIDTH || y < 0 || y >= GRID_HEIGHT
}

} // verus!
