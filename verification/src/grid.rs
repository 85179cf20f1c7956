use vstd::prelude::*;

verus! {

/// The state of one cell of the grid.
#[derive(Clone, Copy, Debug, PartialEq, Eq, Structural)]
pub enum TileState {
    ALIVE,
    DEAD,
}

/// One grid position, holding its state.
#[derive(Clone, Copy, Debug, PartialEq, Eq, Structural)]
pub struct Tile {
    pub state: TileState,
}

/// A fixed-size rectangular grid of tiles, indexed `[row][col]` with
/// `row` in `[0, height)` and `col` in `[0, width)`.
#[derive(Clone, Debug)]
pub struct Board {
    pub width: usize,
    pub height: usize,
    pub tiles: Vec<Vec<Tile>>,
}

impl Board {
    /// The tile array has exactly `height` rows of exactly `width` cells each.
    pub open spec fn well_formed(&self) -> bool {
        &&& self.tiles@.len() == self.height
        &&& forall|i: int| 0 <= i < self.height ==> (#[trigger] self.tiles@[i])@.len() == self.width
    }

    /// The state stored at a coordinate, with everything outside the grid
    /// permanently `DEAD` (an implicit infinite dead border).
    pub open spec fn cell_at(&self, row: int, col: int) -> TileState {
        if 0 <= row < self.height && 0 <= col < self.width {
            self.tiles@[row]@[col].state
        } else {
            TileState::DEAD
        }
    }

    /// 1 if the cell at the coordinate is alive, 0 otherwise.
    pub open spec fn alive_one(&self, row: int, col: int) -> int {
        if self.cell_at(row, col) == TileState::ALIVE {
            1
        } else {
            0
        }
    }

    /// How many of the 8 surrounding coordinates hold an alive cell.
    pub open spec fn neighbor_count(&self, row: int, col: int) -> int {
        self.alive_one(row - 1, col - 1) + self.alive_one(row - 1, col) + self.alive_one(
            row - 1,
            col + 1,
        ) + self.alive_one(row, col - 1) + self.alive_one(row, col + 1) + self.alive_one(
            row + 1,
            col - 1,
        ) + self.alive_one(row + 1, col) + self.alive_one(row + 1, col + 1)
    }

    /// The state the cell at a coordinate takes in the next generation.
    pub open spec fn next_cell(&self, row: int, col: int) -> TileState {
        next_state(self.cell_at(row, col), self.neighbor_count(row, col))
    }
}

/// Conway's update rule for a single cell: an alive cell survives exactly
/// when it has 2 or 3 alive neighbors; a dead cell is born exactly when it
/// has 3 alive neighbors.
pub open spec fn next_state(current: TileState, neighbors: int) -> TileState {
    if current == TileState::ALIVE {
        if neighbors == 2 || neighbors == 3 {
            TileState::ALIVE
        } else {
            TileState::DEAD
        }
    } else {
        if neighbors == 3 {
            TileState::ALIVE
        } else {
            TileState::DEAD
        }
    }
}

/// `post` is the generation that follows `pre`: same dimensions, and every
/// in-bounds cell carries the update rule's result for `pre` at that spot.
pub open spec fn is_step(pre: Board, post: Board) -> bool {
    &&& post.well_formed()
    &&& post.width == pre.width
    &&& post.height == pre.height
    &&& forall|i: int, j: int|
        0 <= i < pre.height && 0 <= j < pre.width ==> #[trigger] post.cell_at(i, j)
            == pre.next_cell(i, j)
}

impl Board {
    /// A grid of the given dimensions with every cell dead.
    pub fn new(width: usize, height: usize) -> (b: Board)
        ensures
            b.well_formed(),
            b.width == width,
            b.height == height,
            forall|i: int, j: int| #[trigger] b.cell_at(i, j) == TileState::DEAD,
    {
        let mut tiles: Vec<Vec<Tile>> = Vec::new();
        let mut r: usize = 0;
        while r < height
            invariant
                r <= height,
                tiles@.len() == r,
                forall|i: int| 0 <= i < r ==> (#[trigger] tiles@[i])@.len() == width,
                forall|i: int, j: int|
                    0 <= i < r && 0 <= j < width ==> (#[trigger] tiles@[i]@[j]).state
                        == TileState::DEAD,
            decreases height - r,
        {
            let mut row: Vec<Tile> = Vec::new();
            let mut c: usize = 0;
            while c < width
                invariant
                    c <= width,
                    row@.len() == c,
                    forall|j: int| 0 <= j < c ==> (#[trigger] row@[j]).state == TileState::DEAD,
                decreases width - c,
            {
                row.push(Tile { state: TileState::DEAD });
                c = c + 1;
            }
            tiles.push(row);
            r = r + 1;
        }
        Board { width, height, tiles }
    }

    /// Overwrites one in-bounds cell; every other cell and the dimensions
    /// are untouched.
    pub fn set(&mut self, row: usize, col: usize, state: TileState)
        requires
            old(self).well_formed(),
            row < old(self).height,
            col < old(self).width,
        ensures
            final(self).well_formed(),
            final(self).width == old(self).width,
            final(self).height == old(self).height,
            final(self).cell_at(row as int, col as int) == state,
            forall|i: int, j: int|
                !(i == row && j == col) ==> #[trigger] final(self).cell_at(i, j) == old(
                    self,
                ).cell_at(i, j),
    {
        self.tiles[row][col] = Tile { state };
    }

    /// Total read: the stored state for an in-bounds coordinate, and `DEAD`
    /// for any coordinate at or beyond either dimension.
    pub fn get(&self, row: usize, col: usize) -> (t: Tile)
        requires
            self.well_formed(),
        ensures
            t.state == self.cell_at(row as int, col as int),
            row >= self.height || col >= self.width ==> t.state == TileState::DEAD,
    {
        if row >= self.height {
            return Tile { state: TileState::DEAD };
        }
        if col >= self.width {
            return Tile { state: TileState::DEAD };
        }
        self.tiles[row][col]
    }

    /// 1 if the neighbor at offset `(dr - 1, dc - 1)` from `(row, col)` is
    /// alive, 0 otherwise; coordinates that fall outside the grid (or outside
    /// the range of `usize`) count as dead.
    fn neighbor_alive(&self, row: usize, col: usize, dr: usize, dc: usize) -> (n: usize)
        requires
            self.well_formed(),
            dr <= 2,
            dc <= 2,
        ensures
            n == self.alive_one(row as int + dr as int - 1, col as int + dc as int - 1),
    {
        if dr == 0 && row == 0 {
            return 0;
        }
        if dc == 0 && col == 0 {
            return 0;
        }
        if dr == 2 && row == usize::MAX {
            return 0;
        }
        if dc == 2 && col == usize::MAX {
            return 0;
        }
        let rr: usize = if dr == 0 {
            row - 1
        } else if dr == 1 {
            row
        } else {
            row + 1
        };
        let cc: usize = if dc == 0 {
            col - 1
        } else if dc == 1 {
            col
        } else {
            col + 1
        };
        if self.get(rr, cc).state == TileState::ALIVE {
            1
        } else {
            0
        }
    }

    /// Applies the update rule to the cell at a coordinate: counts the alive
    /// cells among the 8 surrounding coordinates (those outside the grid count
    /// as dead) and returns the state the cell takes in the next generation.
    pub fn check_tile(&self, row: usize, col: usize) -> (t: Tile)
        requires
            self.well_formed(),
        ensures
            t.state == self.next_cell(row as int, col as int),
    {
        let tile = self.get(row, col);

        let n1 = self.neighbor_alive(row, col, 0, 0);
        let n2 = self.neighbor_alive(row, col, 0, 1);
        let n3 = self.neighbor_alive(row, col, 0, 2);
        let n4 = self.neighbor_alive(row, col, 1, 0);
        let n5 = self.neighbor_alive(row, col, 1, 2);
        let n6 = self.neighbor_alive(row, col, 2, 0);
        let n7 = self.neighbor_alive(row, col, 2, 1);
        let n8 = self.neighbor_alive(row, col, 2, 2);

        let neighbours: usize = n1 + n2 + n3 + n4 + n5 + n6 + n7 + n8;
        assert(neighbours == self.neighbor_count(row as int, col as int));

        if tile.state == TileState::ALIVE {
            if neighbours == 2 || neighbours == 3 {
                Tile { state: TileState::ALIVE }
            } else {
                Tile { state: TileState::DEAD }
            }
        } else {
            if neighbours == 3 {
                Tile { state: TileState::ALIVE }
            } else {
                Tile { state: TileState::DEAD }
            }
        }
    }

    /// One synchronous generation: allocates a brand-new grid of the same
    /// dimensions, fills every cell with the update rule's result for this
    /// grid, and returns it. The receiver is never mutated.
    pub fn tick(&self) -> (r: Board)
        requires
            self.well_formed(),
        ensures
            is_step(*self, r),
    {
        let mut new_tiles: Vec<Vec<Tile>> = Vec::new();
        let mut i: usize = 0;
        while i < self.height
            invariant
                self.well_formed(),
                i <= self.height,
                new_tiles@.len() == i,
                forall|a: int| 0 <= a < i ==> (#[trigger] new_tiles@[a])@.len() == self.width,
                forall|a: int, b: int|
                    0 <= a < i && 0 <= b < self.width ==> (#[trigger] new_tiles@[a]@[b]).state
                        == self.next_cell(a, b),
            decreases self.height - i,
        {
            let mut row: Vec<Tile> = Vec::new();
            let mut j: usize = 0;
            while j < self.width
                invariant
                    self.well_formed(),
                    i < self.height,
                    j <= self.width,
                    row@.len() == j,
                    forall|b: int|
                        0 <= b < j ==> (#[trigger] row@[b]).state == self.next_cell(i as int, b),
                decreases self.width - j,
            {
                row.push(self.check_tile(i, j));
                j = j + 1;
            }
            new_tiles.push(row);
            i = i + 1;
        }
        Board { width: self.width, height: self.height, tiles: new_tiles }
    }
}

/// Birth rule: in any grid, a dead cell with exactly 3 alive neighbors is
/// alive after one step, and with any other neighbor count it stays dead.
pub proof fn lemma_birth_rule(pre: Board, post: Board, row: int, col: int)
    requires
        pre.well_formed(),
        is_step(pre, post),
        0 <= row < pre.height,
        0 <= col < pre.width,
        pre.cell_at(row, col) == TileState::DEAD,
    ensures
        pre.neighbor_count(row, col) == 3 ==> post.cell_at(row, col) == TileState::ALIVE,
        pre.neighbor_count(row, col) != 3 ==> post.cell_at(row, col) == TileState::DEAD,
{
}

/// Survival rule: in any grid, an alive cell with 2 or 3 alive neighbors is
/// still alive after one step, and with 0, 1, or 4 and more alive neighbors
/// it is dead.
pub proof fn lemma_survival_rule(pre: Board, post: Board, row: int, col: int)
    requires
        pre.well_formed(),
        is_step(pre, post),
        0 <= row < pre.height,
        0 <= col < pre.width,
        pre.cell_at(row, col) == TileState::ALIVE,
    ensures
        pre.neighbor_count(row, col) == 2 || pre.neighbor_count(row, col) == 3 ==> post.cell_at(
            row,
            col,
        ) == TileState::ALIVE,
        !(pre.neighbor_count(row, col) == 2 || pre.neighbor_count(row, col) == 3) ==> post.cell_at(
            row,
            col,
        ) == TileState::DEAD,
{
}

/// Stepping is a function of the input grid alone: any two grids that each
/// follow the same grid have the same dimensions and agree on every
/// coordinate, in and out of bounds.
pub proof fn lemma_step_deterministic(pre: Board, post1: Board, post2: Board)
    requires
        is_step(pre, post1),
        is_step(pre, post2),
    ensures
        post1.width == post2.width,
        post1.height == post2.height,
        forall|i: int, j: int| #[trigger] post1.cell_at(i, j) == #[trigger] post2.cell_at(i, j),
{
}

} // verus!
