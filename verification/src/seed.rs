use vstd::prelude::*;
use crate::grid::{Board, TileState};

verus! {

/// How the starting generation is produced: either the fixed five-coordinate
/// pattern, or an independent unweighted coin flip for every cell.
#[derive(Clone, Copy, Debug, PartialEq, Eq, Structural)]
pub enum SeedStrategy {
    Fixed,
    Random,
}

/// The five coordinates of the fixed seed pattern, as `(row, col)` pairs.
pub open spec fn is_seed_coord(row: int, col: int) -> bool {
    ||| (row == 0 && col == 1)
    ||| (row == 1 && col == 2)
    ||| (row == 2 && col == 0)
    ||| (row == 2 && col == 1)
    ||| (row == 2 && col == 2)
}

/// Relies on `rand::random::<bool>`: an unweighted 50/50 draw from the
/// thread's generator. Nothing is promised of the value.
#[verifier::external_body]
fn random_bool() -> bool {
    rand::random()
}

impl Board {
    /// Marks the fixed five-coordinate seed pattern alive; every other cell
    /// keeps its state.
    pub fn seed_fixed(&mut self)
        requires
            old(self).well_formed(),
            old(self).width >= 3,
            old(self).height >= 3,
        ensures
            final(self).well_formed(),
            final(self).width == old(self).width,
            final(self).height == old(self).height,
            forall|i: int, j: int|
                #[trigger] final(self).cell_at(i, j) == (if is_seed_coord(i, j) {
                    TileState::ALIVE
                } else {
                    old(self).cell_at(i, j)
                }),
    {
        self.set(0, 1, TileState::ALIVE);
        self.set(1, 2, TileState::ALIVE);
        self.set(2, 0, TileState::ALIVE);
        self.set(2, 1, TileState::ALIVE);
        self.set(2, 2, TileState::ALIVE);
    }

    /// Overwrites every cell independently with an unweighted random choice
    /// between alive and dead; the dimensions are untouched.
    pub fn randomize(&mut self)
        requires
            old(self).well_formed(),
        ensures
            final(self).well_formed(),
            final(self).width == old(self).width,
            final(self).height == old(self).height,
    {
        let mut i: usize = 0;
        while i < self.height
            invariant
                self.well_formed(),
                self.width == old(self).width,
                self.height == old(self).height,
                i <= self.height,
            decreases self.height - i,
        {
            let mut j: usize = 0;
            while j < self.width
                invariant
                    self.well_formed(),
                    self.width == old(self).width,
                    self.height == old(self).height,
                    i < self.height,
                    j <= self.width,
                decreases self.width - j,
            {
                let state = if random_bool() {
                    TileState::ALIVE
                } else {
                    TileState::DEAD
                };
                self.set(i, j, state);
                j = j + 1;
            }
            i = i + 1;
        }
    }

    /// Builds the starting generation: an all-dead grid of the given
    /// dimensions, seeded by the chosen strategy.
    pub fn new_seeded(width: usize, height: usize, strategy: SeedStrategy) -> (b: Board)
        requires
            strategy == SeedStrategy::Fixed ==> width >= 3 && height >= 3,
        ensures
            b.well_formed(),
            b.width == width,
            b.height == height,
            strategy == SeedStrategy::Fixed ==> forall|i: int, j: int|
                #[trigger] b.cell_at(i, j) == (if is_seed_coord(i, j) {
                    TileState::ALIVE
                } else {
                    TileState::DEAD
                }),
    {
        let mut b = Board::new(width, height);
        match strategy {
            SeedStrategy::Fixed => {
                b.seed_fixed();
            },
            SeedStrategy::Random => {
                b.randomize();
            },
        }
        b
    }
}

} // verus!
