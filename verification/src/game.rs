//! The game state machine: one `update` per simulation tick.

use vstd::prelude::*;
use crate::food::Food;
use crate::snake::{grow_cell, grow_cell_fits, Snake};
use crate::utils::{has_dup, has_duplicate_coordinates};

verus! {

/// The four headings the snake can move in.
#[derive(Clone, Copy, Debug, PartialEq, Eq, Structural)]
pub enum Direction {
    Right,
    Left,
    Up,
    Down,
}

/// The heading that points exactly backwards along `d`.
pub open spec fn opposite(d: Direction) -> Direction {
    match d {
        Direction::Right => Direction::Left,
        Direction::Left => Direction::Right,
        Direction::Up => Direction::Down,
        Direction::Down => Direction::Up,
    }
}

/// Returns the exact opposite of `d`.
pub fn opposite_direction(d: Direction) -> (r: Direction)
    ensures
        r == opposite(d),
{
    match d {
        Direction::Right => Direction::Left,
        Direction::Left => Direction::Right,
        Direction::Up => Direction::Down,
        Direction::Down => Direction::Up,
    }
}

/// The whole game: the snake and the food on one board, the score, the
/// one-way game-over latch and the one-shot speed-up flag. The surrounding
/// event loop reads `game_over` and `increase_speed` after each tick and
/// clears the flag once applied.
pub struct Game {
    pub snake: Snake,
    pub food: Food,
    pub game_over: bool,
    pub points: u64,
    pub increase_speed: bool,
}

impl Game {
    /// The aggregate a tick can act on: a well-formed snake long enough to
    /// grow from its tail, and food sitting on a cell of the same board.
    pub open spec fn wf(self) -> bool {
        &&& self.snake.wf()
        &&& self.snake.body@.len() >= 2
        &&& self.food.wf()
        &&& self.food.size == self.snake.snake_size
        &&& self.food.window_size == self.snake.window_size
    }

    /// The snake's head sits on the food's cell right now.
    pub open spec fn head_on_food(self) -> bool {
        self.food.cell() == (self.snake.body@[0].0 as int, self.snake.body@[0].1 as int)
    }

    /// This tick's movement puts the head on the food's cell.
    pub open spec fn eats(self) -> bool {
        let nh = self.snake.next_head();
        self.food.cell() == (nh.0 as int, nh.1 as int)
    }

    /// The body as this tick leaves it: the head moved one cell, the tail
    /// dropped, and — when the food was eaten — one extrapolated cell
    /// appended at the tail.
    pub open spec fn body_after_tick(self) -> Seq<(i32, i32)> {
        let moved = seq![self.snake.next_head()] + self.snake.body@.drop_last();
        if self.eats() {
            moved.push(grow_cell(moved))
        } else {
            moved
        }
    }

    /// The head cell equals the food's cell: the food's pixel position
    /// divided by the cell size against the head's grid coordinates.
    fn check_snake_food_collision(&self) -> (r: bool)
        requires
            self.snake.body@.len() >= 1,
            self.food.size > 0,
        ensures
            r == self.head_on_food(),
    {
        let head = self.snake.body[0];
        let food_col = self.food.x_pos / self.food.size;
        let food_row = self.food.y_pos / self.food.size;
        food_col as i64 == head.0 as i64 && food_row as i64 == head.1 as i64
    }

    /// The body holds some cell twice.
    fn check_snake_self_collision(&self) -> (r: bool)
        ensures
            r == has_dup(self.snake.body@),
    {
        has_duplicate_coordinates(&self.snake.body)
    }

    /// One simulation tick, in this order: move the snake; if the head
    /// landed on the food, relocate the food, grow the snake, score one
    /// point and — whenever the score reaches a multiple of three — raise
    /// the speed-up flag; finally latch game-over if the body now holds a
    /// duplicate cell.
    pub fn update(&mut self)
        requires
            old(self).wf(),
            old(self).eats() ==> grow_cell_fits(
                seq![old(self).snake.next_head()] + old(self).snake.body@.drop_last(),
            ),
            old(self).eats() ==> old(self).points < u64::MAX,
        ensures
            final(self).wf(),
            final(self).snake.body@ == old(self).body_after_tick(),
            final(self).snake.direction == old(self).snake.direction,
            final(self).snake.window_size == old(self).snake.window_size,
            final(self).snake.snake_size == old(self).snake.snake_size,
            final(self).points == if old(self).eats() {
                old(self).points + 1
            } else {
                old(self).points as int
            },
            final(self).increase_speed == (old(self).increase_speed || (old(self).eats() && (old(
                self,
            ).points + 1) % 3 == 0)),
            final(self).game_over == (old(self).game_over || has_dup(old(self).body_after_tick())),
            final(self).food.size == old(self).food.size,
            final(self).food.window_size == old(self).food.window_size,
            !old(self).eats() ==> final(self).food == old(self).food,
    {
        self.snake.update();
        if self.check_snake_food_collision() {
            self.food.update();
            self.snake.grow();
            self.points = self.points + 1;
            if self.points % 3 == 0 {
                self.increase_speed = true;
            }
        }
        if self.check_snake_self_collision() {
            self.end_the_game();
        }
    }

    /// Steer the snake: the new heading is taken unless it is the exact
    /// opposite of the current one — which would fold the snake back onto
    /// its own neck — or the game is already over; in either case the
    /// heading stays as it was. Nothing else changes.
    pub fn pressed(&mut self, dir: Direction)
        ensures
            final(self).snake.direction == (if old(self).game_over || dir == opposite(
                old(self).snake.direction,
            ) {
                old(self).snake.direction
            } else {
                dir
            }),
            final(self).snake.body@ == old(self).snake.body@,
            final(self).snake.window_size == old(self).snake.window_size,
            final(self).snake.snake_size == old(self).snake.snake_size,
            final(self).food == old(self).food,
            final(self).game_over == old(self).game_over,
            final(self).points == old(self).points,
            final(self).increase_speed == old(self).increase_speed,
    {
        if self.game_over {
            return;
        }
        let last_direction = self.snake.direction;
        if !(dir == opposite_direction(last_direction)) {
            self.snake.direction = dir;
        }
    }

    /// Drop the latch: from here on the game is over.
    fn end_the_game(&mut self)
        ensures
            final(self).game_over == true,
            final(self).snake == old(self).snake,
            final(self).food == old(self).food,
            final(self).points == old(self).points,
            final(self).increase_speed == old(self).increase_speed,
    {
        self.game_over = true;
    }
}

} // verus!
