//! The tile grid and the operations that move tiles through their lifecycle.
use vstd::prelude::*;
use rand::Rng;
use crate::tile::{
    CropType, FertilizerType, Tile, TileInfo, TileState, accepts_fertilizer, fertilized, info_of,
    sprouted, state_after_tick,
};
use crate::inventory::{Inventory, Item};

verus! {

/// Side of the square in the top-left corner whose tiles start unlocked.
pub const STARTER_SIDE: usize = 4;

/// Infestation rolls are drawn from `0..ROLL_RANGE`.
pub const ROLL_RANGE: u32 = 100;

/// A roll below this value infests a growing tile: a chance of two percent.
pub const INFESTATION_THRESHOLD: u32 = 2;

/// Whether the roll for tile `i` fires; a missing roll never does.
pub open spec fn pest_at(rolls: Seq<u32>, i: int) -> bool {
    0 <= i < rolls.len() && rolls[i] < INFESTATION_THRESHOLD
}

/// Whether the tile at row `r`, column `c` starts unlocked.
pub open spec fn starts_unlocked(r: int, c: int) -> bool {
    r < STARTER_SIDE && c < STARTER_SIDE
}

/// The tile after one tick.
pub open spec fn tile_after_tick(t: Tile, pest: bool) -> Tile {
    Tile { state: state_after_tick(t.state, pest), unlocked: t.unlocked }
}

/// The tile at row-major position `i` in a new grid with `cols` columns.
pub open spec fn initial_tile(i: int, cols: int) -> Tile {
    Tile { state: TileState::Empty, unlocked: starts_unlocked(i / cols, i % cols) }
}

/// A row-major position lies inside the grid it was computed for.
pub proof fn lemma_cell_in_grid(r: int, c: int, rows: int, cols: int)
    requires
        0 <= r < rows,
        0 <= c < cols,
    ensures
        0 <= r * cols + c < rows * cols,
        (r * cols + c) / cols == r,
        (r * cols + c) % cols == c,
{
    assert(0 <= r * cols + c < rows * cols) by (nonlinear_arith)
        requires
            0 <= r < rows,
            0 <= c < cols,
    ;
    vstd::arithmetic::div_mod::lemma_fundamental_div_mod_converse(r * cols + c, cols, r, c);
}

/// Relies on rand::thread_rng and rand::Rng::gen_range: a value drawn
/// uniformly from `0..bound`. gen_range panics only on an empty range,
/// which `bound > 0` rules out; thread_rng panics only where the operating
/// system supplies no entropy on first use, which no argument can rule out.
#[verifier::external_body]
fn draw_below(bound: u32) -> (r: u32)
    requires
        bound > 0,
    ensures
        r < bound,
{
    rand::thread_rng().gen_range(0..bound)
}

/// The grid, stored row by row, and the inventory that planting and
/// harvesting draw on.
#[derive(Clone, Debug)]
pub struct Farm {
    pub grid: Vec<Tile>,
    pub rows: usize,
    pub cols: usize,
    pub inventory: Inventory,
}

impl Farm {
    pub open spec fn wf(&self) -> bool {
        &&& self.grid.len() == self.rows * self.cols
        &&& forall|i: int| 0 <= i < self.grid.len() ==> (#[trigger] self.grid@[i]).wf()
        &&& self.inventory.wf()
    }

    pub open spec fn in_bounds(&self, row: int, col: int) -> bool {
        0 <= row < self.rows && 0 <= col < self.cols
    }

    /// Row-major position of a cell.
    pub open spec fn cell(&self, row: int, col: int) -> int {
        row * self.cols + col
    }

    pub open spec fn tile_at(&self, row: int, col: int) -> Tile {
        self.grid@[self.cell(row, col)]
    }

    /// Only the tile at `(row, col)` changed, to `t`; dimensions kept.
    pub open spec fn grid_set(&self, other: &Farm, row: int, col: int, t: Tile) -> bool {
        &&& other.rows == self.rows
        &&& other.cols == self.cols
        &&& other.grid@ == self.grid@.update(self.cell(row, col), t)
    }

    pub open spec fn plant_ok(&self, row: int, col: int, crop: CropType) -> bool {
        &&& self.in_bounds(row, col)
        &&& self.tile_at(row, col).unlocked
        &&& self.tile_at(row, col).state == TileState::Empty
        &&& self.inventory.count(Item::Seed(crop)) > 0
    }

    pub open spec fn planted(&self, after: &Farm, row: int, col: int, crop: CropType) -> bool {
        &&& self.grid_set(after, row, col, Tile { state: sprouted(crop), unlocked: true })
        &&& after.inventory.count(Item::Seed(crop)) == self.inventory.count(Item::Seed(crop)) - 1
        &&& self.inventory.same_except(&after.inventory, Item::Seed(crop))
    }

    pub open spec fn harvest_ok(&self, row: int, col: int) -> bool {
        &&& self.in_bounds(row, col)
        &&& self.tile_at(row, col).state is Mature
        &&& self.inventory.count(Item::Crop(self.tile_at(row, col).state->Mature_crop)) < u32::MAX
    }

    pub open spec fn harvested(&self, after: &Farm, row: int, col: int) -> bool {
        let t = self.tile_at(row, col);
        let item = Item::Crop(t.state->Mature_crop);
        &&& self.grid_set(after, row, col, Tile { state: TileState::Empty, unlocked: t.unlocked })
        &&& after.inventory.count(item) == self.inventory.count(item) + 1
        &&& self.inventory.same_except(&after.inventory, item)
    }

    pub open spec fn fertilize_ok(&self, row: int, col: int, f: FertilizerType) -> bool {
        &&& self.in_bounds(row, col)
        &&& f != FertilizerType::Unfertilized
        &&& accepts_fertilizer(self.tile_at(row, col).state)
        &&& self.inventory.count(Item::Fertilizer(f)) > 0
    }

    pub open spec fn fertilized_at(&self, after: &Farm, row: int, col: int, f: FertilizerType) -> bool {
        let t = self.tile_at(row, col);
        &&& self.grid_set(after, row, col, Tile { state: fertilized(t.state, f), unlocked: t.unlocked })
        &&& after.inventory.count(Item::Fertilizer(f)) == self.inventory.count(Item::Fertilizer(f)) - 1
        &&& self.inventory.same_except(&after.inventory, Item::Fertilizer(f))
    }

    pub open spec fn spray_ok(&self, row: int, col: int) -> bool {
        &&& self.in_bounds(row, col)
        &&& self.tile_at(row, col).state is Infested
        &&& self.inventory.count(Item::Pesticide) > 0
    }

    pub open spec fn sprayed(&self, after: &Farm, row: int, col: int) -> bool {
        let t = self.tile_at(row, col);
        &&& self.grid_set(
            after,
            row,
            col,
            Tile { state: sprouted(t.state->Infested_crop), unlocked: t.unlocked },
        )
        &&& after.inventory.count(Item::Pesticide) == self.inventory.count(Item::Pesticide) - 1
        &&& self.inventory.same_except(&after.inventory, Item::Pesticide)
    }

    pub open spec fn clear_ok(&self, row: int, col: int) -> bool {
        self.in_bounds(row, col) && self.tile_at(row, col).state != TileState::Empty
    }

    pub open spec fn cleared(&self, after: &Farm, row: int, col: int) -> bool {
        let t = self.tile_at(row, col);
        &&& self.grid_set(after, row, col, Tile { state: TileState::Empty, unlocked: t.unlocked })
        &&& after.inventory == self.inventory
    }

    pub open spec fn unlock_ok(&self, row: int, col: int) -> bool {
        self.in_bounds(row, col) && !self.tile_at(row, col).unlocked
    }

    pub open spec fn unlocked_at(&self, after: &Farm, row: int, col: int) -> bool {
        let t = self.tile_at(row, col);
        &&& self.grid_set(after, row, col, Tile { state: t.state, unlocked: true })
        &&& after.inventory == self.inventory
    }

    /// A grid of `height` rows and `width` columns, all tiles empty, those of
    /// the top-left starter square unlocked, and an empty inventory.
    pub fn new(width: usize, height: usize) -> (r: Self)
        requires
            width * height <= usize::MAX,
        ensures
            r.wf(),
            r.rows == height,
            r.cols == width,
            forall|i: int| 0 <= i < r.grid.len() ==> #[trigger] r.grid@[i] == initial_tile(i, width as int),
            forall|item: Item| #[trigger] r.inventory.count(item) == 0,
    {
        let n = width * height;
        let mut grid: Vec<Tile> = Vec::new();
        let mut i: usize = 0;
        while i < n
            invariant
                i <= n,
                n == width * height,
                grid.len() == i,
                forall|j: int| 0 <= j < i ==> #[trigger] grid@[j] == initial_tile(j, width as int),
            decreases n - i,
        {
            proof {
                if width == 0 {
                    assert(width * height == 0) by (nonlinear_arith)
                        requires
                            width == 0,
                    ;
                }
            }
            let unlocked = i / width < STARTER_SIDE && i % width < STARTER_SIDE;
            grid.push(Tile { state: TileState::Empty, unlocked });
            i += 1;
        }
        proof {
            vstd::arithmetic::mul::lemma_mul_is_commutative(width as int, height as int);
        }
        Farm { grid, rows: height, cols: width, inventory: Inventory::new() }
    }

    /// The row-major position of `(row, col)`, where it lies in the grid.
    pub fn position(&self, row: usize, col: usize) -> (r: Option<usize>)
        requires
            self.wf(),
        ensures
            r is Some <==> self.in_bounds(row as int, col as int),
            r matches Some(i) ==> i == self.cell(row as int, col as int) && i < self.grid.len(),
    {
        if row < self.rows && col < self.cols {
            proof {
                lemma_cell_in_grid(row as int, col as int, self.rows as int, self.cols as int);
            }
            Some(row * self.cols + col)
        } else {
            None
        }
    }

    /// The tile at `(row, col)`, where it lies in the grid.
    pub fn get_tile(&self, row: usize, col: usize) -> (r: Option<Tile>)
        requires
            self.wf(),
        ensures
            r == (if self.in_bounds(row as int, col as int) {
                Some(self.tile_at(row as int, col as int))
            } else {
                None::<Tile>
            }),
    {
        match self.position(row, col) {
            Some(i) => Some(self.grid[i]),
            None => None,
        }
    }

    /// Advances every tile by one tick. `rolls` holds one infestation roll per
    /// tile in row-major order; a growing tile whose roll fires becomes
    /// infested instead of growing. Tiles without a roll are not infested.
    pub fn tick_with_rolls(&mut self, rolls: &Vec<u32>)
        requires
            old(self).wf(),
        ensures
            final(self).wf(),
            final(self).rows == old(self).rows,
            final(self).cols == old(self).cols,
            final(self).inventory == old(self).inventory,
            final(self).grid.len() == old(self).grid.len(),
            forall|i: int|
                0 <= i < old(self).grid.len() ==> #[trigger] final(self).grid@[i] == tile_after_tick(
                    old(self).grid@[i],
                    pest_at(rolls@, i),
                ),
    {
        let ghost g0 = self.grid@;
        let n = self.grid.len();
        let mut i: usize = 0;
        while i < n
            invariant
                self.wf(),
                n == self.grid.len(),
                g0.len() == n,
                i <= n,
                self.rows == old(self).rows,
                self.cols == old(self).cols,
                self.inventory == old(self).inventory,
                forall|j: int| 0 <= j < i ==> #[trigger] self.grid@[j] == tile_after_tick(g0[j], pest_at(rolls@, j)),
                forall|j: int| i <= j < n ==> #[trigger] self.grid@[j] == g0[j],
            decreases n - i,
        {
            let t = self.grid[i];
            let pest = i < rolls.len() && rolls[i] < INFESTATION_THRESHOLD;
            let next = Tile { state: t.state.after_tick(pest), unlocked: t.unlocked };
            self.grid.set(i, next);
            i += 1;
        }
    }

    /// Advances every tile by one tick, drawing an infestation roll for each.
    /// Whatever the rolls, each tile either grows as it would without pests
    /// or, if it was growing, becomes infested.
    pub fn tick(&mut self)
        requires
            old(self).wf(),
        ensures
            final(self).wf(),
            final(self).rows == old(self).rows,
            final(self).cols == old(self).cols,
            final(self).inventory == old(self).inventory,
            final(self).grid.len() == old(self).grid.len(),
            forall|i: int|
                0 <= i < old(self).grid.len() ==> {
                    ||| #[trigger] final(self).grid@[i] == tile_after_tick(old(self).grid@[i], false)
                    ||| final(self).grid@[i] == tile_after_tick(old(self).grid@[i], true)
                },
    {
        let n = self.grid.len();
        let mut rolls: Vec<u32> = Vec::new();
        let mut i: usize = 0;
        while i < n
            invariant
                i <= n,
                rolls.len() == i,
            decreases n - i,
        {
            rolls.push(draw_below(ROLL_RANGE));
            i += 1;
        }
        self.tick_with_rolls(&rolls);
    }

    /// Advances every tile by one tick with no infestation.
    pub fn tick_without_infestation(&mut self)
        requires
            old(self).wf(),
        ensures
            final(self).wf(),
            final(self).rows == old(self).rows,
            final(self).cols == old(self).cols,
            final(self).inventory == old(self).inventory,
            final(self).grid.len() == old(self).grid.len(),
            forall|i: int|
                0 <= i < old(self).grid.len() ==> #[trigger] final(self).grid@[i] == tile_after_tick(
                    old(self).grid@[i],
                    false,
                ),
    {
        let none: Vec<u32> = Vec::new();
        self.tick_with_rolls(&none);
    }

    /// Plants `crop` on an unlocked, empty tile, using up one of its seeds.
    /// Otherwise nothing changes.
    pub fn plant(&mut self, row: usize, col: usize, crop: CropType) -> (r: bool)
        requires
            old(self).wf(),
        ensures
            final(self).wf(),
            r == old(self).plant_ok(row as int, col as int, crop),
            r ==> old(self).planted(final(self), row as int, col as int, crop),
            !r ==> *final(self) == *old(self),
    {
        match self.position(row, col) {
            Some(i) => {
                let t = self.grid[i];
                if t.unlocked && t.can_plant() && self.inventory.remove_seed(crop) {
                    self.grid.set(i, Tile { state: TileState::Planted {
                        crop,
                        timer: 0,
                        fertilizer: FertilizerType::Unfertilized,
                    }, unlocked: true });
                    true
                } else {
                    false
                }
            },
            None => false,
        }
    }

    /// Harvests a mature tile: it becomes empty and one crop of its kind is
    /// added to the inventory. Fails, changing nothing, on any other tile or
    /// where the crop count is already at its maximum.
    pub fn harvest(&mut self, row: usize, col: usize) -> (r: bool)
        requires
            old(self).wf(),
        ensures
            final(self).wf(),
            r == old(self).harvest_ok(row as int, col as int),
            r ==> old(self).harvested(final(self), row as int, col as int),
            !r ==> *final(self) == *old(self),
    {
        match self.position(row, col) {
            Some(i) => {
                let t = self.grid[i];
                match t.state {
                    TileState::Mature { crop } => {
                        if self.inventory.add_crop(crop) {
                            self.grid.set(i, Tile { state: TileState::Empty, unlocked: t.unlocked });
                            true
                        } else {
                            false
                        }
                    },
                    _ => false,
                }
            },
            None => false,
        }
    }

    /// Applies a fertilizer to a growing, unfertilized tile, using up one
    /// unit of it; the growth timer is kept. Otherwise nothing changes.
    pub fn fertilize(&mut self, row: usize, col: usize, fertilizer: FertilizerType) -> (r: bool)
        requires
            old(self).wf(),
        ensures
            final(self).wf(),
            r == old(self).fertilize_ok(row as int, col as int, fertilizer),
            r ==> old(self).fertilized_at(final(self), row as int, col as int, fertilizer),
            !r ==> *final(self) == *old(self),
    {
        if let FertilizerType::Unfertilized = fertilizer {
            return false;
        }
        match self.position(row, col) {
            Some(i) => {
                let mut t = self.grid[i];
                if t.can_fertilize() && self.inventory.remove_fertilizer(fertilizer) {
                    let applied = t.apply_fertilizer(fertilizer);
                    self.grid.set(i, t);
                    applied
                } else {
                    false
                }
            },
            None => false,
        }
    }

    /// Sprays an infested tile with one pesticide: growth restarts from
    /// zero without fertilizer. Otherwise nothing changes.
    pub fn spray_tile(&mut self, row: usize, col: usize) -> (r: bool)
        requires
            old(self).wf(),
        ensures
            final(self).wf(),
            r == old(self).spray_ok(row as int, col as int),
            r ==> old(self).sprayed(final(self), row as int, col as int),
            !r ==> *final(self) == *old(self),
    {
        match self.position(row, col) {
            Some(i) => {
                let t = self.grid[i];
                match t.state {
                    TileState::Infested { crop } => {
                        if self.inventory.remove(Item::Pesticide, 1) {
                            self.grid.set(i, Tile { state: TileState::Planted {
                                crop,
                                timer: 0,
                                fertilizer: FertilizerType::Unfertilized,
                            }, unlocked: t.unlocked });
                            true
                        } else {
                            false
                        }
                    },
                    _ => false,
                }
            },
            None => false,
        }
    }

    /// Resets a non-empty tile to empty, crediting nothing. Otherwise
    /// nothing changes.
    pub fn clear_tile(&mut self, row: usize, col: usize) -> (r: bool)
        requires
            old(self).wf(),
        ensures
            final(self).wf(),
            r == old(self).clear_ok(row as int, col as int),
            r ==> old(self).cleared(final(self), row as int, col as int),
            !r ==> *final(self) == *old(self),
    {
        match self.position(row, col) {
            Some(i) => {
                let t = self.grid[i];
                if !t.can_plant() {
                    self.grid.set(i, Tile { state: TileState::Empty, unlocked: t.unlocked });
                    true
                } else {
                    false
                }
            },
            None => false,
        }
    }

    /// Marks a locked tile unlocked. Otherwise nothing changes.
    pub fn unlock(&mut self, row: usize, col: usize) -> (r: bool)
        requires
            old(self).wf(),
        ensures
            final(self).wf(),
            r == old(self).unlock_ok(row as int, col as int),
            r ==> old(self).unlocked_at(final(self), row as int, col as int),
            !r ==> *final(self) == *old(self),
    {
        match self.position(row, col) {
            Some(i) => {
                let t = self.grid[i];
                if !t.unlocked {
                    self.grid.set(i, Tile { state: t.state, unlocked: true });
                    true
                } else {
                    false
                }
            },
            None => false,
        }
    }

    /// Clears every infestation at once: each infested tile restarts
    /// growing from zero without fertilizer.
    pub fn clear_all_infestations(&mut self)
        requires
            old(self).wf(),
        ensures
            final(self).wf(),
            final(self).rows == old(self).rows,
            final(self).cols == old(self).cols,
            final(self).inventory == old(self).inventory,
            final(self).grid.len() == old(self).grid.len(),
            forall|i: int|
                0 <= i < old(self).grid.len() ==> #[trigger] final(self).grid@[i] == (match old(
                    self,
                ).grid@[i].state {
                    TileState::Infested { crop } => Tile {
                        state: sprouted(crop),
                        unlocked: old(self).grid@[i].unlocked,
                    },
                    _ => old(self).grid@[i],
                }),
    {
        let ghost g0 = self.grid@;
        let n = self.grid.len();
        let mut i: usize = 0;
        while i < n
            invariant
                self.wf(),
                n == self.grid.len(),
                g0.len() == n,
                i <= n,
                self.rows == old(self).rows,
                self.cols == old(self).cols,
                self.inventory == old(self).inventory,
                forall|j: int|
                    0 <= j < i ==> #[trigger] self.grid@[j] == (match g0[j].state {
                        TileState::Infested { crop } => Tile {
                            state: sprouted(crop),
                            unlocked: g0[j].unlocked,
                        },
                        _ => g0[j],
                    }),
                forall|j: int| i <= j < n ==> #[trigger] self.grid@[j] == g0[j],
            decreases n - i,
        {
            let t = self.grid[i];
            if let TileState::Infested { crop } = t.state {
                self.grid.set(i, Tile { state: TileState::Planted {
                    crop,
                    timer: 0,
                    fertilizer: FertilizerType::Unfertilized,
                }, unlocked: t.unlocked });
            }
            i += 1;
        }
    }

    /// Progress, remaining time and expected profit of the tile at
    /// `(row, col)`, where it lies in the grid.
    pub fn get_crop_info(&self, row: usize, col: usize) -> (r: Option<TileInfo>)
        requires
            self.wf(),
        ensures
            r == (if self.in_bounds(row as int, col as int) {
                Some(info_of(self.tile_at(row as int, col as int).state))
            } else {
                None::<TileInfo>
            }),
    {
        match self.position(row, col) {
            Some(i) => Some(self.grid[i].get_tile_info()),
            None => None,
        }
    }

    /// Seed, crop and fertilizer counts, indexed by kind.
    pub fn get_full_inventory(&self) -> (r: (Vec<u32>, Vec<u32>, Vec<u32>))
        requires
            self.wf(),
        ensures
            r.0@ == self.inventory.seeds@,
            r.1@ == self.inventory.crops@,
            r.2@ == self.inventory.fertilizers@,
    {
        self.inventory.get_all_items()
    }

    /// Seed and crop counts, indexed by crop kind.
    pub fn get_inventory(&self) -> (r: (Vec<u32>, Vec<u32>))
        requires
            self.wf(),
        ensures
            r.0@ == self.inventory.seeds@,
            r.1@ == self.inventory.crops@,
    {
        self.inventory.get_items()
    }
}

} // verus!
