use vstd::prelude::*;

verus! {

/// Index of cell `(x, y)` in the row-major order the tally uses:
/// `(0,0) -> 0, (1,0) -> 1, (2,0) -> 2, (0,1) -> 3, (1,1) -> 4, (2,1) -> 5`.
pub open spec fn cell_index(x: int, y: int) -> int {
    y * 3 + x
}

/// Sum of the six counters of a tally view.
pub open spec fn sum6(s: Seq<nat>) -> int {
    s[0] as int + s[1] + s[2] + s[3] + s[4] + s[5]
}

/// Frequency tally of the empty cell's position over the six grid cells.
/// `iterations` is the number of accepted-move iterations the run was asked
/// for; each completed iteration increments exactly one of the six counters,
/// named after their row-major cell index.
#[derive(Debug, Clone, Copy, PartialEq, Eq, Structural)]
pub struct OccupancyTally {
    pub iterations: usize,
    pub zero: usize,
    pub one: usize,
    pub two: usize,
    pub three: usize,
    pub four: usize,
    pub five: usize,
}

impl View for OccupancyTally {
    type V = Seq<nat>;

    open spec fn view(&self) -> Seq<nat> {
        seq![
            self.zero as nat,
            self.one as nat,
            self.two as nat,
            self.three as nat,
            self.four as nat,
            self.five as nat,
        ]
    }
}

impl OccupancyTally {
    /// A zeroed tally for a run of `n` iterations.
    pub fn new(n: usize) -> (t: OccupancyTally)
        ensures
            t.iterations == n,
            t@ == seq![0nat, 0nat, 0nat, 0nat, 0nat, 0nat],
            sum6(t@) == 0,
    {
        let t = OccupancyTally {
            iterations: n,
            zero: 0,
            one: 0,
            two: 0,
            three: 0,
            four: 0,
            five: 0,
        };
        proof {
            assert(t@ =~= seq![0nat, 0nat, 0nat, 0nat, 0nat, 0nat]);
        }
        t
    }

    /// Records one accepted move that left the empty cell at `(x, y)`:
    /// increments the matching counter and nothing else.
    pub fn record(&mut self, x: usize, y: usize)
        requires
            x < 3,
            y < 2,
            sum6(old(self)@) < usize::MAX,
        ensures
            final(self)@ == old(self)@.update(
                cell_index(x as int, y as int),
                (old(self)@[cell_index(x as int, y as int)] + 1) as nat,
            ),
            final(self).iterations == old(self).iterations,
            sum6(final(self)@) == sum6(old(self)@) + 1,
    {
        if y == 0 {
            if x == 0 {
                self.zero = self.zero + 1;
            } else if x == 1 {
                self.one = self.one + 1;
            } else {
                self.two = self.two + 1;
            }
        } else {
            if x == 0 {
                self.three = self.three + 1;
            } else if x == 1 {
                self.four = self.four + 1;
            } else {
                self.five = self.five + 1;
            }
        }
        proof {
            assert(self@ =~= old(self)@.update(
                cell_index(x as int, y as int),
                (old(self)@[cell_index(x as int, y as int)] + 1) as nat,
            ));
        }
    }
}

} // verus!
