//! The per-frame state machine: steering, the fixed movement cadence, eating
//! and restart. Drawing and reading keys are left to the caller.

use vstd::prelude::*;

use crate::food::{has_free_cell, Food};
use crate::grid::{Cell, Direction};
use crate::snake::{initial_snake, Snake, SnakeModel};

verus! {

/// Frames per movement tick.
pub const MOVE_PERIOD: u32 = 12;

/// The keys held during one frame.
#[derive(Clone, Copy, Debug, PartialEq, Eq, Structural)]
pub struct Input {
    pub up: bool,
    pub left: bool,
    pub right: bool,
    pub down: bool,
    pub restart: bool,
}

/// Whether the snake still moves, or waits for a restart.
#[derive(Clone, Copy, Debug, PartialEq, Eq, Structural)]
pub enum Phase {
    Running,
    Dead,
}

/// The heading after the held keys: Up before Left before Right before
/// Down; with none held the heading stays.
pub open spec fn steered(input: Input, current: Direction) -> Direction {
    if input.up {
        Direction::Up
    } else if input.left {
        Direction::Left
    } else if input.right {
        Direction::Right
    } else if input.down {
        Direction::Down
    } else {
        current
    }
}

/// The heading after the held keys.
pub fn choose_heading(input: &Input, current: Direction) -> (r: Direction)
    ensures
        r == steered(*input, current),
{
    if input.up {
        Direction::Up
    } else if input.left {
        Direction::Left
    } else if input.right {
        Direction::Right
    } else if input.down {
        Direction::Down
    } else {
        current
    }
}

/// The mathematical model of a game.
pub struct GameModel {
    pub snake: SnakeModel,
    pub food: Cell,
    /// Frames since the last movement tick.
    pub move_timer: u32,
}

impl GameModel {
    /// The game after steering by the held keys.
    pub open spec fn steer(self, input: Input) -> GameModel {
        GameModel { snake: self.snake.headed(steered(input, self.snake.heading)), ..self }
    }

    /// The game after counting one frame: when the count reaches
    /// `MOVE_PERIOD` it restarts from zero and a living snake advances.
    pub open spec fn tick(self) -> GameModel {
        if self.move_timer >= MOVE_PERIOD - 1 {
            GameModel {
                snake: if self.snake.dead() {
                    self.snake
                } else {
                    self.snake.advanced()
                },
                move_timer: 0,
                ..self
            }
        } else {
            GameModel { move_timer: (self.move_timer + 1) as u32, ..self }
        }
    }

    /// Whether the head is on the food.
    pub open spec fn eating(self) -> bool {
        self.snake.head() == self.food
    }

    /// What holds after the food check of `before`: food under the head is
    /// replaced by food off the snake (kept if the snake fills the grid) and
    /// growth is marked; otherwise nothing changes.
    pub open spec fn fed_from(self, before: GameModel) -> bool {
        &&& self.move_timer == before.move_timer
        &&& if before.eating() {
            &&& self.snake == before.snake.marked()
            &&& has_free_cell(before.snake.body) ==> self.food.on_grid()
                && !before.snake.body.contains(self.food)
            &&& !has_free_cell(before.snake.body) ==> self.food == before.food
        } else {
            self == before
        }
    }
}

/// A game: the snake, the food and the frame counter.
pub struct Game {
    snake: Snake,
    food: Food,
    move_timer: u32,
}

impl View for Game {
    type V = GameModel;

    closed spec fn view(&self) -> GameModel {
        GameModel { snake: self.snake@, food: self.food.position, move_timer: self.move_timer }
    }
}

impl Game {
    /// A new game: the initial snake and food off it.
    pub fn new() -> (r: Game)
        ensures
            r@.snake == initial_snake(),
            r@.food.on_grid(),
            !r@.snake.body.contains(r@.food),
            r@.move_timer == 0,
    {
        let snake = Snake::new();
        let corner = Cell { x: 0, y: 0 };
        assert(!snake@.body.contains(corner)) by {
            assert(snake@.body[0] != corner && snake@.body[1] != corner);
        }
        assert(has_free_cell(snake@.body));
        match Food::spawn(&snake) {
            Some(food) => Game { snake, food, move_timer: 0 },
            None => vstd::pervasive::unreached(),
        }
    }

    /// A game with the given snake and food, at the start of a movement period.
    pub fn with_state(snake: Snake, food: Food) -> (r: Game)
        ensures
            r@ == (GameModel { snake: snake@, food: food.position, move_timer: 0 }),
    {
        Game { snake, food, move_timer: 0 }
    }

    /// The first part of a frame, before drawing: steer by the held keys,
    /// count the frame (moving a living snake every `MOVE_PERIOD` frames),
    /// then, if the head is on the food, place new food and mark growth.
    pub fn update(&mut self, input: &Input)
        ensures
            final(self)@.fed_from(old(self)@.steer(*input).tick()),
    {
        let heading = choose_heading(input, self.snake.heading());
        self.snake.set_heading(heading);
        if self.move_timer >= MOVE_PERIOD - 1 {
            if !self.snake.is_dead() {
                self.snake.advance();
            }
            self.move_timer = 0;
        } else {
            self.move_timer = self.move_timer + 1;
        }
        if self.food.position == self.snake.head() {
            match Food::spawn(&self.snake) {
                Some(food) => {
                    self.food = food;
                },
                None => {},
            }
            self.snake.mark_growth();
        }
    }

    /// The last part of a frame, after drawing: a held restart key replaces
    /// the snake by a fresh one, whatever the phase; the food stays.
    pub fn end_frame(&mut self, input: &Input)
        ensures
            final(self)@ == if input.restart {
                GameModel { snake: initial_snake(), ..old(self)@ }
            } else {
                old(self)@
            },
    {
        if input.restart {
            self.snake = Snake::new();
        }
    }

    /// `Dead` exactly when the snake is dead.
    pub fn phase(&self) -> (r: Phase)
        ensures
            r == (if self@.snake.dead() {
                Phase::Dead
            } else {
                Phase::Running
            }),
    {
        if self.snake.is_dead() {
            Phase::Dead
        } else {
            Phase::Running
        }
    }

    /// The score shown to the player: the length of the snake.
    pub fn score(&self) -> (r: usize)
        ensures
            r == self@.snake.body.len(),
    {
        self.snake.len()
    }

    pub fn snake(&self) -> (r: &Snake)
        ensures
            r@ == self@.snake,
    {
        &self.snake
    }

    pub fn food(&self) -> (r: Food)
        ensures
            r.position == self@.food,
    {
        self.food
    }

    /// Frames since the last movement tick.
    pub fn move_timer(&self) -> (r: u32)
        ensures
            r == self@.move_timer,
    {
        self.move_timer
    }
}

} // verus!
