//! The snake: an ordered body of cells, head first, with a heading and a
//! one-shot growth flag.

use vstd::prelude::*;

use crate::grid::{Cell, Direction};

verus! {

/// The mathematical model of a snake.
pub struct SnakeModel {
    /// Cells of the body, head first.
    pub body: Seq<Cell>,
    pub heading: Direction,
    pub pending_growth: bool,
}

impl SnakeModel {
    /// A snake always has a head.
    pub open spec fn wf(self) -> bool {
        self.body.len() >= 1
    }

    pub open spec fn head(self) -> Cell {
        self.body[0]
    }

    /// Whether some cell other than the head (index 1 onwards) is the head's cell.
    pub open spec fn bites_itself(self) -> bool {
        exists|i: int| 1 <= i < self.body.len() && #[trigger] self.body[i] == self.head()
    }

    /// The head has left the grid, or runs into the rest of the body.
    pub open spec fn dead(self) -> bool {
        !self.head().on_grid() || self.bites_itself()
    }

    /// Whether the next head cell is representable.
    pub open spec fn can_advance(self) -> bool {
        self.head().can_step(self.heading)
    }

    /// The snake after one movement tick: a new head in front, the tail
    /// dropped unless growth was pending, and the growth flag cleared.
    pub open spec fn advanced(self) -> SnakeModel {
        let kept = if self.pending_growth {
            self.body
        } else {
            self.body.drop_last()
        };
        SnakeModel {
            body: seq![self.head().stepped(self.heading)] + kept,
            heading: self.heading,
            pending_growth: false,
        }
    }

    /// The snake with growth pending for the next tick.
    pub open spec fn marked(self) -> SnakeModel {
        SnakeModel { pending_growth: true, ..self }
    }

    /// The snake with a new heading.
    pub open spec fn headed(self, d: Direction) -> SnakeModel {
        SnakeModel { heading: d, ..self }
    }
}

/// Marking growth twice before a tick is the same as marking it once.
pub proof fn lemma_mark_growth_idempotent(s: SnakeModel)
    ensures
        s.marked().marked() == s.marked(),
{
}

/// The snake at the start of a game: two cells, heading up, no growth pending.
pub open spec fn initial_snake() -> SnakeModel {
    SnakeModel {
        body: seq![Cell { x: 20, y: 20 }, Cell { x: 19, y: 20 }],
        heading: Direction::Up,
        pending_growth: false,
    }
}

/// The snake: its body is never empty.
pub struct Snake {
    body: Vec<Cell>,
    heading: Direction,
    pending_growth: bool,
}

impl View for Snake {
    type V = SnakeModel;

    closed spec fn view(&self) -> SnakeModel {
        SnakeModel { body: self.body@, heading: self.heading, pending_growth: self.pending_growth }
    }
}

impl Snake {
    #[verifier::type_invariant]
    closed spec fn has_head(&self) -> bool {
        self.body@.len() >= 1
    }

    /// A fresh snake at the start of a game.
    pub fn new() -> (r: Snake)
        ensures
            r@ == initial_snake(),
    {
        let mut body: Vec<Cell> = Vec::new();
        body.push(Cell { x: 20, y: 20 });
        body.push(Cell { x: 19, y: 20 });
        let r = Snake { body, heading: Direction::Up, pending_growth: false };
        assert(r@.body =~= initial_snake().body);
        r
    }

    /// A snake with the given body, heading and growth flag; `None` when the
    /// body is empty.
    pub fn from_parts(
        body: Vec<Cell>,
        heading: Direction,
        pending_growth: bool,
    ) -> (r: Option<Snake>)
        ensures
            body@.len() == 0 <==> r is None,
            r matches Some(s) ==> s@ == (SnakeModel { body: body@, heading, pending_growth }),
    {
        if body.len() == 0 {
            None
        } else {
            Some(Snake { body, heading, pending_growth })
        }
    }

    /// Moves the snake one cell along its heading. The new head goes in
    /// front; the tail is dropped unless growth was pending, and the growth
    /// flag is cleared. No bounds are checked here: see `is_dead`.
    pub fn advance(&mut self)
        requires
            old(self)@.can_advance(),
        ensures
            final(self)@ == old(self)@.advanced(),
            final(self)@.body.len() == old(self)@.body.len() + if old(self)@.pending_growth {
                1int
            } else {
                0int
            },
            !final(self)@.pending_growth,
    {
        proof {
            use_type_invariant(&*self);
        }
        let next = self.body[0].step(self.heading);
        let mut body: Vec<Cell> = Vec::new();
        body.push(next);
        std::mem::swap(&mut body, &mut self.body);
        body.insert(0, next);
        if !self.pending_growth {
            body.pop();
        }
        assert(body@ =~= old(self)@.advanced().body);
        self.body = body;
        self.pending_growth = false;
    }

    /// Asks for one cell of growth on the next tick; calling it again
    /// before that tick changes nothing.
    pub fn mark_growth(&mut self)
        ensures
            final(self)@ == old(self)@.marked(),
    {
        proof {
            use_type_invariant(&*self);
        }
        self.pending_growth = true;
    }

    /// Sets the heading; no turn is refused, not even a reversal.
    pub fn set_heading(&mut self, d: Direction)
        ensures
            final(self)@ == old(self)@.headed(d),
    {
        proof {
            use_type_invariant(&*self);
        }
        self.heading = d;
    }

    /// Whether the head lies off the grid or on another cell of the body.
    pub fn is_dead(&self) -> (r: bool)
        ensures
            r == self@.dead(),
            self@.wf(),
            !self@.head().on_grid() ==> r,
            (exists|i: int| 1 <= i < self@.body.len() && #[trigger] self@.body[i] == self@.head())
                ==> r,
    {
        proof {
            use_type_invariant(self);
        }
        let h = self.body[0];
        if crate::grid::is_out_of_bounds(h.x, h.y) {
            return true;
        }
        let mut i: usize = 1;
        while i < self.body.len()
            invariant
                1 <= i <= self.body@.len(),
                h == self@.head(),
                forall|j: int| 1 <= j < i ==> self.body@[j] != h,
            decreases self.body@.len() - i,
        {
            if self.body[i] == h {
                return true;
            }
            i = i + 1;
        }
        false
    }

    /// Whether the body covers cell `c`.
    pub fn occupies(&self, c: Cell) -> (r: bool)
        ensures
            r == self@.body.contains(c),
    {
        let mut i: usize = 0;
        while i < self.body.len()
            invariant
                0 <= i <= self.body@.len(),
                forall|j: int| 0 <= j < i ==> self.body@[j] != c,
            decreases self.body@.len() - i,
        {
            if self.body[i] == c {
                return true;
            }
            i = i + 1;
        }
        false
    }

    /// The head cell.
    pub fn head(&self) -> (r: Cell)
        ensures
            r == self@.head(),
            self@.wf(),
    {
        proof {
            use_type_invariant(self);
        }
        self.body[0]
    }

    /// The body, head first.
    pub fn body(&self) -> (r: &Vec<Cell>)
        ensures
            r@ == self@.body,
            self@.wf(),
    {
        proof {
            use_type_invariant(self);
        }
        &self.body
    }

    pub fn heading(&self) -> (r: Direction)
        ensures
            r == self@.heading,
    {
        self.heading
    }

    pub fn pending_growth(&self) -> (r: bool)
        ensures
            r == self@.pending_growth,
    {
        self.pending_growth
    }

    /// Number of cells of the body.
    pub fn len(&self) -> (r: usize)
        ensures
            r == self@.body.len(),
    {
        self.body.len()
    }
}

} // verus!
