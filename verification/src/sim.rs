use vstd::prelude::*;
use rand::RngCore;
use rand::SeedableRng;
use crate::grid::{GridState, SimError, dir_legal, dest_x, dest_y, in_bounds};
use crate::tally::{OccupancyTally, cell_index, sum6};

verus! {

/// Declares rand's `StdRng` so that a field can hold one; its value is
/// opaque here, and only the trusted wrappers below touch it.
#[verifier::external_type_specification]
#[verifier::external_body]
pub struct ExStdRng(rand::rngs::StdRng);

/// A source of raw uniform random words for the simulator, wrapping one
/// explicitly scoped generator: seeded from entropy for production runs,
/// from a fixed seed for reproducible ones.
pub struct DirectionSource {
    rng: rand::rngs::StdRng,
}

impl DirectionSource {
    /// Relies on rand's `SeedableRng::from_entropy` for `StdRng`: a fresh
    /// generator seeded from the operating system's entropy source (which
    /// the call aborts on if the system cannot provide entropy).
    #[verifier::external_body]
    pub fn from_entropy() -> DirectionSource {
        DirectionSource { rng: rand::rngs::StdRng::from_entropy() }
    }

    /// Relies on rand's `SeedableRng::seed_from_u64` for `StdRng`: a
    /// generator whose word stream depends on the seed alone, for
    /// reproducible runs. Nothing is assumed of the stream here.
    #[verifier::external_body]
    pub fn from_seed(seed: u64) -> DirectionSource {
        DirectionSource { rng: rand::rngs::StdRng::seed_from_u64(seed) }
    }

    /// Relies on rand's `RngCore::next_u64` for `StdRng`: the next word of
    /// the generator's stream. Nothing is assumed of its value, so every
    /// caller's proof holds for every possible word.
    #[verifier::external_body]
    pub(crate) fn next_raw(&mut self) -> u64 {
        self.rng.next_u64()
    }
}

/// Quarter of the word space a raw draw lies in, partitioning the draws
/// into four equal quarters in the fixed direction order up, down, left,
/// right.
pub open spec fn quarter(v: u64) -> int {
    (v >> 62) as int
}

/// Maps a raw draw to the direction whose quarter it lies in.
pub fn quarter_of(v: u64) -> (d: u32)
    ensures
        d as int == quarter(v),
        d < 4,
{
    let q: u64 = v >> 62;
    proof {
        assert(v >> 62 < 4) by (bit_vector);
    }
    q as u32
}

/// The empty cell's coordinate after a walk from `(x, y)` driven by the raw
/// draws in order: each draw attempts the move in its quarter's direction,
/// an illegal attempt is discarded, a legal one moves the cell.
pub open spec fn walk_xy(x: int, y: int, draws: Seq<u64>) -> (int, int)
    decreases draws.len(),
{
    if draws.len() == 0 {
        (x, y)
    } else {
        let p = walk_xy(x, y, draws.drop_last());
        let d = quarter(draws.last());
        if dir_legal(p.0, p.1, d) {
            (dest_x(p.0, d), dest_y(p.1, d))
        } else {
            p
        }
    }
}

/// The tally of the same walk: after each legal move, the counter of the
/// cell the empty cell arrived at goes up by one; discarded draws count
/// nothing.
pub open spec fn walk_tally(x: int, y: int, draws: Seq<u64>) -> Seq<nat>
    decreases draws.len(),
{
    if draws.len() == 0 {
        seq![0nat, 0nat, 0nat, 0nat, 0nat, 0nat]
    } else {
        let t = walk_tally(x, y, draws.drop_last());
        let p = walk_xy(x, y, draws.drop_last());
        let d = quarter(draws.last());
        if dir_legal(p.0, p.1, d) {
            let i = cell_index(dest_x(p.0, d), dest_y(p.1, d));
            t.update(i, (t[i] + 1) as nat)
        } else {
            t
        }
    }
}

/// A walk's tally always has one counter per grid cell.
pub proof fn lemma_walk_tally_len(x: int, y: int, draws: Seq<u64>)
    ensures
        walk_tally(x, y, draws).len() == 6,
    decreases draws.len(),
{
    if draws.len() > 0 {
        lemma_walk_tally_len(x, y, draws.drop_last());
    }
}

/// A walk that starts on the grid stays on the grid, whatever the draws.
pub proof fn lemma_walk_in_bounds(x: int, y: int, draws: Seq<u64>)
    requires
        in_bounds(x, y),
    ensures
        in_bounds(walk_xy(x, y, draws).0, walk_xy(x, y, draws).1),
    decreases draws.len(),
{
    if draws.len() > 0 {
        lemma_walk_in_bounds(x, y, draws.drop_last());
    }
}

/// The counters of a walk's tally are non-negative and sum to the number of
/// accepted moves, which never exceeds the number of draws.
pub proof fn lemma_walk_tally_sum(x: int, y: int, draws: Seq<u64>)
    ensures
        0 <= sum6(walk_tally(x, y, draws)) <= draws.len(),
    decreases draws.len(),
{
    lemma_walk_tally_len(x, y, draws);
    if draws.len() > 0 {
        lemma_walk_tally_sum(x, y, draws.drop_last());
        lemma_walk_tally_len(x, y, draws.drop_last());
    }
}

/// Deterministic replay of a run: applies the given raw draws in order to a
/// grid whose empty cell starts at `(start_x, start_y)` and tallies every
/// accepted move. The result is a function of the arguments alone, so two
/// replays of the same start and draws return the same tally; its
/// `iterations` field holds the number of accepted moves.
pub fn run_with_draws(start_x: usize, start_y: usize, draws: &Vec<u64>) -> (r: Result<
    OccupancyTally,
    SimError,
>)
    ensures
        start_x < 3 && start_y < 2 ==> (r matches Ok(t) && t@ == walk_tally(
            start_x as int,
            start_y as int,
            draws@,
        ) && t.iterations == sum6(t@)),
        !(start_x < 3 && start_y < 2) ==> r == Err::<OccupancyTally, SimError>(
            (SimError::InvalidStart { x: start_x, y: start_y }),
        ),
{
    let mut grid = match GridState::new(start_x, start_y) {
        Ok(g) => g,
        Err(e) => {
            return Err(e);
        },
    };
    let mut tally = OccupancyTally::new(0);
    let mut successes: usize = 0;
    let mut i: usize = 0;
    while i < draws.len()
        invariant
            grid.wf(),
            i <= draws@.len(),
            grid@ == walk_xy(start_x as int, start_y as int, draws@.take(i as int)),
            tally@ == walk_tally(start_x as int, start_y as int, draws@.take(i as int)),
            successes as int == sum6(tally@),
            successes <= i,
        decreases draws@.len() - i,
    {
        let v = draws[i];
        let d = quarter_of(v);
        proof {
            assert(draws@.take(i as int + 1).drop_last() =~= draws@.take(i as int));
            assert(draws@.take(i as int + 1).last() == draws@[i as int]);
            lemma_walk_tally_len(start_x as int, start_y as int, draws@.take(i as int));
        }
        match grid.attempt(d) {
            Ok(_) => {
                let pos = grid.current_position();
                tally.record(pos.0, pos.1);
                successes = successes + 1;
            },
            Err(_) => {},
        }
        i = i + 1;
    }
    proof {
        assert(draws@.take(draws@.len() as int) =~= draws@);
    }
    tally.iterations = successes;
    Ok(tally)
}

/// How many rejected draws in a row one iteration tolerates before the
/// safety net draws among the legal directions directly. At least two of
/// the four directions are legal everywhere on the grid, so reaching the
/// cap is astronomically unlikely; the net keeps the resample loop bounded
/// without changing the observed statistics.
pub const RETRY_CAP: usize = 64;

/// Performs exactly one accepted move: repeatedly draws a uniform direction
/// and attempts it, discarding illegal draws as the rejection policy asks;
/// past `RETRY_CAP` rejections it draws uniformly among the legal
/// directions instead, which always succeeds.
fn advance(grid: &mut GridState, source: &mut DirectionSource)
    requires
        old(grid).wf(),
    ensures
        final(grid).wf(),
        exists|d: int|
            0 <= d < 4 && dir_legal(old(grid)@.0, old(grid)@.1, d) && final(grid)@ == (
                dest_x(old(grid)@.0, d),
                dest_y(old(grid)@.1, d),
            ),
{
    let ghost g0 = *grid;
    let mut moved = false;
    let mut t: usize = 0;
    while t < RETRY_CAP && !moved
        invariant
            grid.wf(),
            t <= RETRY_CAP,
            !moved ==> *grid == g0,
            moved ==> exists|d: int|
                0 <= d < 4 && dir_legal(g0@.0, g0@.1, d) && grid@ == (
                    dest_x(g0@.0, d),
                    dest_y(g0@.1, d),
                ),
        decreases RETRY_CAP - t,
    {
        let v = source.next_raw();
        let d = quarter_of(v);
        match grid.attempt(d) {
            Ok(_) => {
                moved = true;
            },
            Err(_) => {},
        }
        t = t + 1;
    }
    if !moved {
        let dirs = grid.legal_dirs();
        let v = source.next_raw();
        let k = (v % (dirs.len() as u64)) as usize;
        let d = dirs[k];
        proof {
            assert(dir_legal(g0@.0, g0@.1, dirs@[k as int] as int));
        }
        let _ = grid.attempt(d);
    }
}

/// One full run: builds a grid with the empty cell at `(start_x, start_y)`
/// and a zeroed tally for `n` iterations, then performs exactly `n`
/// accepted-move iterations, recording the empty cell's position after each.
/// On return the six counters sum to exactly `n`. A starting coordinate off
/// the grid is the one error; illegal moves inside the resample loop never
/// reach the caller.
pub fn run(start_x: usize, start_y: usize, n: usize, source: &mut DirectionSource) -> (r: Result<
    OccupancyTally,
    SimError,
>)
    ensures
        start_x < 3 && start_y < 2 ==> (r matches Ok(t) && t.iterations == n && sum6(t@)
            == n as int),
        !(start_x < 3 && start_y < 2) ==> r == Err::<OccupancyTally, SimError>(
            (SimError::InvalidStart { x: start_x, y: start_y }),
        ),
{
    let mut grid = match GridState::new(start_x, start_y) {
        Ok(g) => g,
        Err(e) => {
            return Err(e);
        },
    };
    let mut tally = OccupancyTally::new(n);
    let mut i: usize = 0;
    while i < n
        invariant
            grid.wf(),
            i <= n,
            sum6(tally@) == i as int,
            tally.iterations == n,
        decreases n - i,
    {
        advance(&mut grid, source);
        let pos = grid.current_position();
        tally.record(pos.0, pos.1);
        i = i + 1;
    }
    Ok(tally)
}

} // verus!
