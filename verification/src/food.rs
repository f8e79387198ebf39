//! The food: one cell of the board, moved to a random cell whenever eaten.

use vstd::prelude::*;
use vstd::arithmetic::div_mod::{
    lemma_div_by_multiple, lemma_div_non_zero, lemma_fundamental_div_mod, lemma_mod_bound,
    lemma_mod_multiples_basic,
};
use vstd::arithmetic::mul::lemma_mul_inequality;
use rand::Rng;

verus! {

/// One piece of food. `x_pos` and `y_pos` are the pixel coordinates of the
/// cell's top-left corner — always whole multiples of `size`, the pixel size
/// of one cell on a board of `window_size` pixels.
pub struct Food {
    pub x_pos: u32,
    pub y_pos: u32,
    pub size: u32,
    pub window_size: (u32, u32),
}

/// Draws one value below `n`.
///
/// Relies on `rand::Rng::gen_range` (on `rand::thread_rng`'s generator):
/// sampling from the half-open range `0..n` returns a value strictly below
/// `n`, and panics only when the range is empty, which `n > 0` rules out.
/// Nothing more is assumed of the draw: every outcome below `n` may come.
#[verifier::external_body]
fn random_below(n: u32) -> (r: u32)
    requires
        n > 0,
    ensures
        r < n,
{
    rand::thread_rng().gen_range(0..n)
}

/// Picks a random cell of the board and returns the pixel coordinates of its
/// top-left corner. Any cell of the board can come up: nothing keeps the
/// food off the snake's body.
pub fn generate_random_food_position(window_size: (u32, u32), snake_size: u32) -> (pos: (u32, u32))
    requires
        snake_size > 0,
        window_size.0 >= snake_size,
        window_size.1 >= snake_size,
    ensures
        pos.0 % snake_size == 0,
        pos.0 / snake_size < window_size.0 / snake_size,
        pos.1 % snake_size == 0,
        pos.1 / snake_size < window_size.1 / snake_size,
{
    let window_width = window_size.0;
    let window_height = window_size.1;

    let num_rows = window_height / snake_size;
    let num_cols = window_width / snake_size;

    proof {
        lemma_div_non_zero(window_height as int, snake_size as int);
        lemma_div_non_zero(window_width as int, snake_size as int);
    }
    let row_index = random_below(num_rows);
    let col_index = random_below(num_cols);

    proof {
        lemma_cell_origin_in_window(col_index as int, window_width as int, snake_size as int);
        lemma_cell_origin_in_window(row_index as int, window_height as int, snake_size as int);
    }
    let x = col_index * snake_size;
    let y = row_index * snake_size;

    (x, y)
}

/// A cell index below `w / s` marks a cell whose pixel origin `c * s` still
/// lies at least one whole cell inside the `w` pixels available, is again a
/// multiple of `s`, and divides back to the index `c`.
proof fn lemma_cell_origin_in_window(c: int, w: int, s: int)
    requires
        s > 0,
        w >= 0,
        0 <= c < w / s,
    ensures
        c * s <= w - s,
        (c * s) % s == 0,
        (c * s) / s == c,
{
    let q = w / s;
    lemma_fundamental_div_mod(w, s);
    lemma_mod_bound(w, s);
    assert(s * q <= w);
    lemma_mul_inequality(c + 1, q, s);
    assert((c + 1) * s == c * s + s) by (nonlinear_arith);
    assert(q * s == s * q) by (nonlinear_arith);
    lemma_mod_multiples_basic(c, s);
    lemma_div_by_multiple(c, s);
}

impl Food {
    /// The food sits on a whole cell of its board.
    pub open spec fn wf(self) -> bool {
        &&& self.size > 0
        &&& self.window_size.0 >= self.size
        &&& self.window_size.1 >= self.size
        &&& self.x_pos % self.size == 0
        &&& self.x_pos / self.size < self.window_size.0 / self.size
        &&& self.y_pos % self.size == 0
        &&& self.y_pos / self.size < self.window_size.1 / self.size
    }

    /// The grid column and row the food occupies.
    pub open spec fn cell(self) -> (int, int) {
        (self.x_pos as int / self.size as int, self.y_pos as int / self.size as int)
    }

    /// Food placed on a fresh random cell of a board of `window_size` pixels
    /// with cells of `size` pixels.
    pub fn new(size: u32, window_size: (u32, u32)) -> (food: Food)
        requires
            size > 0,
            window_size.0 >= size,
            window_size.1 >= size,
        ensures
            food.wf(),
            food.size == size,
            food.window_size == window_size,
    {
        let (x_pos, y_pos) = generate_random_food_position(window_size, size);
        Food { x_pos, y_pos, size, window_size }
    }

    /// Move the food to a fresh random cell of its board.
    pub fn update(&mut self)
        requires
            old(self).size > 0,
            old(self).window_size.0 >= old(self).size,
            old(self).window_size.1 >= old(self).size,
        ensures
            final(self).wf(),
            final(self).size == old(self).size,
            final(self).window_size == old(self).window_size,
    {
        let (x, y) = generate_random_food_position(self.window_size, self.size);
        self.x_pos = x;
        self.y_pos = y;
    }
}

} // verus!
