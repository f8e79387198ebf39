//! The snake: an ordered body of grid cells and a heading, moving on a board
//! with wrap-around edges.

use vstd::prelude::*;
use crate::game::Direction;

verus! {

/// The player-controlled body. `body` lists the occupied grid cells head
/// first; `window_size` (in pixels) and `snake_size` (the pixel size of one
/// cell) fix the board geometry the snake moves on.
pub struct Snake {
    pub body: Vec<(i32, i32)>,
    pub direction: Direction,
    pub window_size: (u32, u32),
    pub snake_size: u32,
}

/// The cell appended by `grow`: the tail extended one step along the line
/// from the next-to-last cell through the last one, `2*last - penultimate`
/// on each axis. The result can lie outside the board; growth does not wrap.
pub open spec fn grow_cell(s: Seq<(i32, i32)>) -> (i32, i32) {
    (
        (2 * s[s.len() - 1].0 - s[s.len() - 2].0) as i32,
        (2 * s[s.len() - 1].1 - s[s.len() - 2].1) as i32,
    )
}

/// The tail extrapolation stays within `i32` arithmetic, intermediate
/// doubling included.
pub open spec fn grow_cell_fits(s: Seq<(i32, i32)>) -> bool {
    &&& i32::MIN <= 2 * s[s.len() - 1].0 <= i32::MAX
    &&& i32::MIN <= 2 * s[s.len() - 1].0 - s[s.len() - 2].0 <= i32::MAX
    &&& i32::MIN <= 2 * s[s.len() - 1].1 <= i32::MAX
    &&& i32::MIN <= 2 * s[s.len() - 1].1 - s[s.len() - 2].1 <= i32::MAX
}

impl Snake {
    /// The wrap column: the board width in whole cells. A head moving right
    /// from this column returns to column 0, and a head moving left from
    /// column 0 jumps here — one past the last fully visible column. The
    /// policy is deliberately asymmetric; see `lemma_wrap_edges`.
    pub open spec fn right_edge(self) -> int {
        self.window_size.0 as int / self.snake_size as int
    }

    /// The wrap row: the board height in whole cells, used on the vertical
    /// axis exactly as `right_edge` is on the horizontal one.
    pub open spec fn bottom_edge(self) -> int {
        self.window_size.1 as int / self.snake_size as int
    }

    /// The board geometry is usable: cells have positive size and the wrap
    /// column and row fit in an `i32`.
    pub open spec fn geometry_wf(self) -> bool {
        &&& self.snake_size > 0
        &&& self.right_edge() <= i32::MAX
        &&& self.bottom_edge() <= i32::MAX
    }

    /// The head lies within the wrap range of the board; the wrap columns
    /// and rows themselves are reachable positions.
    pub open spec fn head_in_range(self) -> bool {
        &&& 0 <= self.body@[0].0 <= self.right_edge()
        &&& 0 <= self.body@[0].1 <= self.bottom_edge()
    }

    /// A snake the tick can act on: usable geometry, at least a head, and
    /// the head inside the wrap range.
    pub open spec fn wf(self) -> bool {
        &&& self.geometry_wf()
        &&& self.body@.len() >= 1
        &&& self.head_in_range()
    }

    /// The cell the head moves to in one tick: one step along the heading,
    /// wrapping at the board edges as `right_edge` and `bottom_edge` say.
    pub open spec fn next_head(self) -> (i32, i32) {
        let h = self.body@[0];
        match self.direction {
            Direction::Left => if h.0 == 0 {
                (self.right_edge() as i32, h.1)
            } else {
                ((h.0 - 1) as i32, h.1)
            },
            Direction::Right => if h.0 == self.right_edge() {
                (0i32, h.1)
            } else {
                ((h.0 + 1) as i32, h.1)
            },
            Direction::Down => if h.1 == self.bottom_edge() {
                (h.0, 0i32)
            } else {
                (h.0, (h.1 + 1) as i32)
            },
            Direction::Up => if h.1 == 0 {
                (h.0, self.bottom_edge() as i32)
            } else {
                (h.0, (h.1 - 1) as i32)
            },
        }
    }

    /// Advance one tick: the head moves one cell along the current heading,
    /// wrapping at the edges, and the tail cell is dropped — the body keeps
    /// its length.
    pub fn update(&mut self)
        requires
            old(self).wf(),
        ensures
            final(self).body@ == seq![old(self).next_head()] + old(self).body@.drop_last(),
            final(self).body@.len() == old(self).body@.len(),
            final(self).body@[0] == old(self).next_head(),
            final(self).direction == old(self).direction,
            final(self).window_size == old(self).window_size,
            final(self).snake_size == old(self).snake_size,
            final(self).wf(),
    {
        let mut new_head = self.body[0];

        let window_width: u32 = self.window_size.0;
        let window_height: u32 = self.window_size.1;

        let right_edge: i32 = (window_width / self.snake_size) as i32;
        let left_edge: i32 = 0;
        let top_edge: i32 = 0;
        let bottom_edge: i32 = (window_height / self.snake_size) as i32;

        match self.direction {
            Direction::Left => {
                if new_head.0 == 0 {
                    new_head.0 = right_edge;
                } else {
                    new_head.0 = new_head.0 - 1;
                }
            }
            Direction::Right => {
                if new_head.0 == right_edge {
                    new_head.0 = left_edge;
                } else {
                    new_head.0 = new_head.0 + 1;
                }
            }
            Direction::Down => {
                if new_head.1 == bottom_edge {
                    new_head.1 = top_edge;
                } else {
                    new_head.1 = new_head.1 + 1;
                }
            }
            Direction::Up => {
                if new_head.1 == top_edge {
                    new_head.1 = bottom_edge;
                } else {
                    new_head.1 = new_head.1 - 1;
                }
            }
        }

        self.body.insert(0, new_head);
        self.body.pop();
        proof {
            assert(self.body@ =~= seq![old(self).next_head()] + old(self).body@.drop_last());
        }
    }

    /// Append one cell at the tail, extrapolated from the last two cells:
    /// the body grows by exactly one and the new tail cell is
    /// `2*last - penultimate` on each axis.
    pub fn grow(&mut self)
        requires
            old(self).body@.len() >= 2,
            grow_cell_fits(old(self).body@),
        ensures
            final(self).body@ == old(self).body@.push(grow_cell(old(self).body@)),
            final(self).body@.len() == old(self).body@.len() + 1,
            final(self).body@.last().0 == 2 * old(self).body@.last().0 - old(self).body@[old(
                self,
            ).body@.len() - 2].0,
            final(self).body@.last().1 == 2 * old(self).body@.last().1 - old(self).body@[old(
                self,
            ).body@.len() - 2].1,
            final(self).direction == old(self).direction,
            final(self).window_size == old(self).window_size,
            final(self).snake_size == old(self).snake_size,
    {
        let n = self.body.len();
        let last_tail_segment = self.body[n - 1];
        let penultimate_tail_segment = self.body[n - 2];

        let grow_segment = (
            2 * last_tail_segment.0 - penultimate_tail_segment.0,
            2 * last_tail_segment.1 - penultimate_tail_segment.1,
        );

        self.body.push(grow_segment);
    }
}

/// The wrap policy at the four board edges: the far edges return to 0,
/// while column 0 moving left and row 0 moving up jump to the wrap column
/// or row itself, one past the last fully visible cell.
pub proof fn lemma_wrap_edges(s: Snake)
    requires
        s.wf(),
    ensures
        s.direction == Direction::Right && s.body@[0].0 == s.right_edge() ==> s.next_head() == (
            0i32,
            s.body@[0].1,
        ),
        s.direction == Direction::Left && s.body@[0].0 == 0 ==> s.next_head() == (
            s.right_edge() as i32,
            s.body@[0].1,
        ),
        s.direction == Direction::Down && s.body@[0].1 == s.bottom_edge() ==> s.next_head() == (
            s.body@[0].0,
            0i32,
        ),
        s.direction == Direction::Up && s.body@[0].1 == 0 ==> s.next_head() == (
            s.body@[0].0,
            s.bottom_edge() as i32,
        ),
{
}

} // verus!
