//! A snake game on a fixed grid: the snake's movement and death rules, food
//! placement that avoids the snake, and the per-frame game state machine.

pub mod grid;
pub mod snake;
pub mod food;
pub mod game;

pub use food::Food;
pub use game::{choose_heading, Game, Input, Phase, MOVE_PERIOD};
pub use grid::{is_out_of_bounds, Cell, Direction, GRID_HEIGHT, GRID_WIDTH};
pub use snake::Snake;
