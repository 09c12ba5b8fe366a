use vstd::prelude::*;

verus! {

/// Errors of the grid state machine. `IllegalMove` carries the current
/// coordinate of the empty cell and the attempted destination; its fields are
/// `i32` so that an out-of-bounds destination (such as `-1`) is representable.
/// `InvalidStart` reports a starting coordinate outside the fixed 2x3 grid at
/// construction time.
#[derive(Debug, Clone, PartialEq, Eq, Structural)]
pub enum SimError {
    IllegalMove { curr_x: i32, curr_y: i32, tried_x: i32, tried_y: i32 },
    InvalidStart { x: usize, y: usize },
}

/// True when `(x, y)` lies on the fixed 2x3 grid: three columns, two rows.
pub open spec fn in_bounds(x: int, y: int) -> bool {
    0 <= x < 3 && 0 <= y < 2
}

/// Column of the destination one step in direction `d` from column `x`.
/// Directions are numbered in the fixed order 0 up, 1 down, 2 left, 3 right.
pub open spec fn dest_x(x: int, d: int) -> int {
    if d == 2 {
        x - 1
    } else if d == 3 {
        x + 1
    } else {
        x
    }
}

/// Row of the destination one step in direction `d` from row `y`.
pub open spec fn dest_y(y: int, d: int) -> int {
    if d == 0 {
        y - 1
    } else if d == 1 {
        y + 1
    } else {
        y
    }
}

/// A move in direction `d` from `(x, y)` is legal when its destination stays
/// on the grid.
pub open spec fn dir_legal(x: int, y: int, d: int) -> bool {
    in_bounds(dest_x(x, d), dest_y(y, d))
}

/// The direction that undoes `d`: up and down are opposites, as are left and
/// right.
pub open spec fn opposite(d: int) -> int {
    if d == 0 {
        1
    } else if d == 1 {
        0
    } else if d == 2 {
        3
    } else {
        2
    }
}

/// How many of the four directions are illegal at `(x, y)`.
pub open spec fn num_illegal(x: int, y: int) -> int {
    (if dir_legal(x, y, 0) { 0int } else { 1int })
        + (if dir_legal(x, y, 1) { 0int } else { 1int })
        + (if dir_legal(x, y, 2) { 0int } else { 1int })
        + (if dir_legal(x, y, 3) { 0int } else { 1int })
}

/// The 2x3 board, seen through its one empty cell: every other cell holds an
/// identical particle, so the coordinate of the empty cell is the whole
/// state. A move slides the neighbouring particle into the empty cell, which
/// is the same as moving the empty cell one step in the chosen direction.
#[derive(Debug, Clone, Copy, PartialEq, Eq, Structural)]
pub struct GridState {
    pub empty_x: usize,
    pub empty_y: usize,
}

impl View for GridState {
    type V = (int, int);

    open spec fn view(&self) -> (int, int) {
        (self.empty_x as int, self.empty_y as int)
    }
}

impl GridState {
    /// The single-empty-cell invariant: the empty cell lies on the grid.
    pub open spec fn wf(self) -> bool {
        in_bounds(self@.0, self@.1)
    }

    /// Constructs a state with the empty cell at `(x, y)`; a starting
    /// coordinate off the grid is a configuration error, reported before any
    /// simulation work begins.
    pub fn new(x: usize, y: usize) -> (r: Result<GridState, SimError>)
        ensures
            x < 3 && y < 2 ==> r == Ok::<GridState, SimError>((GridState { empty_x: x, empty_y: y })),
            x < 3 && y < 2 ==> (r matches Ok(g) && g.wf() && g@ == (x as int, y as int)),
            !(x < 3 && y < 2) ==> r == Err::<GridState, SimError>((SimError::InvalidStart { x, y })),
    {
        if x < 3 && y < 2 {
            Ok(GridState { empty_x: x, empty_y: y })
        } else {
            Err(SimError::InvalidStart { x, y })
        }
    }

    /// The coordinate of the empty cell, a read-only snapshot.
    pub fn current_position(&self) -> (r: (usize, usize))
        ensures
            r.0 as int == self@.0,
            r.1 as int == self@.1,
    {
        (self.empty_x, self.empty_y)
    }

    /// Moves the empty cell up one row, or fails if it is already in the top
    /// row; a failed move leaves the state untouched.
    pub fn move_up(&mut self) -> (r: Result<(), SimError>)
        requires
            old(self).wf(),
        ensures
            final(self).wf(),
            dir_legal(old(self)@.0, old(self)@.1, 0) ==> (r == Ok::<(), SimError>(()) && final(self)@
                == (old(self)@.0, old(self)@.1 - 1)),
            !dir_legal(old(self)@.0, old(self)@.1, 0) ==> (*final(self) == *old(self) && r == Err::<
                (),
                SimError,
            >(
                (SimError::IllegalMove {
                    curr_x: old(self)@.0 as i32,
                    curr_y: old(self)@.1 as i32,
                    tried_x: old(self)@.0 as i32,
                    tried_y: (old(self)@.1 - 1) as i32,
                }),
            )),
    {
        if self.empty_y == 0 {
            return Err(
                SimError::IllegalMove {
                    curr_x: self.empty_x as i32,
                    curr_y: self.empty_y as i32,
                    tried_x: self.empty_x as i32,
                    tried_y: self.empty_y as i32 - 1,
                },
            );
        }
        self.empty_y = 0;
        Ok(())
    }

    /// Moves the empty cell down one row, or fails if it is already in the
    /// bottom row; a failed move leaves the state untouched.
    pub fn move_down(&mut self) -> (r: Result<(), SimError>)
        requires
            old(self).wf(),
        ensures
            final(self).wf(),
            dir_legal(old(self)@.0, old(self)@.1, 1) ==> (r == Ok::<(), SimError>(()) && final(self)@
                == (old(self)@.0, old(self)@.1 + 1)),
            !dir_legal(old(self)@.0, old(self)@.1, 1) ==> (*final(self) == *old(self) && r == Err::<
                (),
                SimError,
            >(
                (SimError::IllegalMove {
                    curr_x: old(self)@.0 as i32,
                    curr_y: old(self)@.1 as i32,
                    tried_x: old(self)@.0 as i32,
                    tried_y: (old(self)@.1 + 1) as i32,
                }),
            )),
    {
        if self.empty_y == 1 {
            return Err(
                SimError::IllegalMove {
                    curr_x: self.empty_x as i32,
                    curr_y: self.empty_y as i32,
                    tried_x: self.empty_x as i32,
                    tried_y: self.empty_y as i32 + 1,
                },
            );
        }
        self.empty_y = 1;
        Ok(())
    }

    /// Moves the empty cell one column to the left, or fails at the leftmost
    /// column; a failed move leaves the state untouched.
    pub fn move_left(&mut self) -> (r: Result<(), SimError>)
        requires
            old(self).wf(),
        ensures
            final(self).wf(),
            dir_legal(old(self)@.0, old(self)@.1, 2) ==> (r == Ok::<(), SimError>(()) && final(self)@
                == (old(self)@.0 - 1, old(self)@.1)),
            !dir_legal(old(self)@.0, old(self)@.1, 2) ==> (*final(self) == *old(self) && r == Err::<
                (),
                SimError,
            >(
                (SimError::IllegalMove {
                    curr_x: old(self)@.0 as i32,
                    curr_y: old(self)@.1 as i32,
                    tried_x: (old(self)@.0 - 1) as i32,
                    tried_y: old(self)@.1 as i32,
                }),
            )),
    {
        if self.empty_x == 0 {
            return Err(
                SimError::IllegalMove {
                    curr_x: self.empty_x as i32,
                    curr_y: self.empty_y as i32,
                    tried_x: self.empty_x as i32 - 1,
                    tried_y: self.empty_y as i32,
                },
            );
        }
        self.empty_x = self.empty_x - 1;
        Ok(())
    }

    /// Moves the empty cell one column to the right, or fails at the
    /// rightmost column; a failed move leaves the state untouched.
    pub fn move_right(&mut self) -> (r: Result<(), SimError>)
        requires
            old(self).wf(),
        ensures
            final(self).wf(),
            dir_legal(old(self)@.0, old(self)@.1, 3) ==> (r == Ok::<(), SimError>(()) && final(self)@
                == (old(self)@.0 + 1, old(self)@.1)),
            !dir_legal(old(self)@.0, old(self)@.1, 3) ==> (*final(self) == *old(self) && r == Err::<
                (),
                SimError,
            >(
                (SimError::IllegalMove {
                    curr_x: old(self)@.0 as i32,
                    curr_y: old(self)@.1 as i32,
                    tried_x: (old(self)@.0 + 1) as i32,
                    tried_y: old(self)@.1 as i32,
                }),
            )),
    {
        if self.empty_x == 2 {
            return Err(
                SimError::IllegalMove {
                    curr_x: self.empty_x as i32,
                    curr_y: self.empty_y as i32,
                    tried_x: self.empty_x as i32 + 1,
                    tried_y: self.empty_y as i32,
                },
            );
        }
        self.empty_x = self.empty_x + 1;
        Ok(())
    }

    /// Attempts the move numbered `d` (0 up, 1 down, 2 left, 3 right): the
    /// one dispatch point the simulator uses.
    pub fn attempt(&mut self, d: u32) -> (r: Result<(), SimError>)
        requires
            old(self).wf(),
            d < 4,
        ensures
            final(self).wf(),
            dir_legal(old(self)@.0, old(self)@.1, d as int) ==> (r == Ok::<(), SimError>(())
                && final(self)@ == (dest_x(old(self)@.0, d as int), dest_y(old(self)@.1, d as int))),
            !dir_legal(old(self)@.0, old(self)@.1, d as int) ==> (*final(self) == *old(self) && r == Err::<
                (),
                SimError,
            >(
                (SimError::IllegalMove {
                    curr_x: old(self)@.0 as i32,
                    curr_y: old(self)@.1 as i32,
                    tried_x: dest_x(old(self)@.0, d as int) as i32,
                    tried_y: dest_y(old(self)@.1, d as int) as i32,
                }),
            )),
    {
        if d == 0 {
            self.move_up()
        } else if d == 1 {
            self.move_down()
        } else if d == 2 {
            self.move_left()
        } else {
            self.move_right()
        }
    }

    /// The directions that are legal at the current position, in the fixed
    /// order up, down, left, right. Every cell of the 2x3 grid has two or
    /// three legal directions.
    pub fn legal_dirs(&self) -> (dirs: Vec<u32>)
        requires
            self.wf(),
        ensures
            2 <= dirs@.len() <= 3,
            forall|j: int|
                0 <= j < dirs@.len() ==> dirs@[j] < 4 && dir_legal(self@.0, self@.1, dirs@[j] as int),
    {
        let mut dirs: Vec<u32> = Vec::new();
        if self.empty_y == 1 {
            dirs.push(0);
        }
        if self.empty_y == 0 {
            dirs.push(1);
        }
        if self.empty_x > 0 {
            dirs.push(2);
        }
        if self.empty_x < 2 {
            dirs.push(3);
        }
        dirs
    }
}

/// Opposite moves are mutual inverses: wherever a move in direction `d` is
/// legal, the opposite move is legal at its destination and leads back to the
/// starting coordinate.
pub proof fn lemma_opposite_moves(x: int, y: int, d: int)
    requires
        in_bounds(x, y),
        0 <= d < 4,
        dir_legal(x, y, d),
    ensures
        dir_legal(dest_x(x, d), dest_y(y, d), opposite(d)),
        dest_x(dest_x(x, d), opposite(d)) == x,
        dest_y(dest_y(y, d), opposite(d)) == y,
{
}

/// Every cell of the 2x3 grid is an edge or a corner: the two edge-centre
/// cells (column 1) have exactly one illegal direction, the four corners
/// exactly two, so at least two of the four directions are always legal.
pub proof fn lemma_blocked_directions(x: int, y: int)
    requires
        in_bounds(x, y),
    ensures
        num_illegal(x, y) == (if x == 1 { 1int } else { 2int }),
        num_illegal(x, y) <= 2,
{
}

} // verus!
