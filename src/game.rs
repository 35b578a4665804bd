//! The engine: one aggregate owning the grid, the inventory, the ledger and
//! the task list, with every command the player can issue.
use vstd::prelude::*;
use crate::tile::{
    CropType, FertilizerType, Tile, TileInfo, TileState, crop_price, info_of, sprouted,
    CROP_KINDS, FERTILIZER_KINDS,
};
use crate::inventory::{Inventory, Item, TOOL_KINDS, copy_vec};
use crate::farm::{Farm, initial_tile, pest_at, tile_after_tick};
use crate::shop::{
    Shop, fertilizer_price, seed_price, PESTICIDE_PRICE, STARTING_BALANCE, UNLOCK_COST,
};
use crate::task::{
    Task, after_planting, default_tasks, default_tasks_view, planting_progress_law,
    tasks_after_planting,
};

verus! {

/// Rows and columns of the grid of a new game.
pub const GRID_SIDE: usize = 10;

/// Why a saved state was refused.
#[derive(Clone, Copy, PartialEq, Eq, Structural, Debug)]
pub enum RestoreError {
    /// The saved grid does not have the live grid's dimensions.
    GridMismatch,
    /// An inventory table does not have one entry per kind.
    InventoryMismatch,
    /// A saved tile is growing past its crop's base growth time.
    InvalidTile,
    /// A saved task breaks the task invariant.
    InvalidTask,
}

/// The persisted form of a game: every tile, the four inventory tables,
/// the balance and the task list.
#[derive(Clone, Debug)]
pub struct GameState {
    pub rows: usize,
    pub cols: usize,
    pub grid: Vec<Tile>,
    pub inventory_seeds: Vec<u32>,
    pub inventory_crops: Vec<u32>,
    pub inventory_fertilizers: Vec<u32>,
    pub inventory_tools: Vec<u32>,
    pub balance: u32,
    pub tasks: Vec<Task>,
}

/// The whole engine state.
#[derive(Clone, Debug)]
pub struct Game {
    pub farm: Farm,
    pub shop: Shop,
    pub tasks: Vec<Task>,
    /// While set, ticks draw no infestation.
    pub bug_protection: bool,
}

/// `i` is the first task carrying `id`.
pub open spec fn first_with_id(tasks: Seq<Task>, id: u32, i: int) -> bool {
    &&& 0 <= i < tasks.len()
    &&& tasks[i].id == id
    &&& forall|j: int| 0 <= j < i ==> (#[trigger] tasks[j]).id != id
}

/// No task carries `id`.
pub open spec fn no_task_with_id(tasks: Seq<Task>, id: u32) -> bool {
    forall|j: int| 0 <= j < tasks.len() ==> (#[trigger] tasks[j]).id != id
}

/// Every task of the list is well formed.
pub open spec fn tasks_wf(tasks: Seq<Task>) -> bool {
    forall|j: int| 0 <= j < tasks.len() ==> (#[trigger] tasks[j]).wf()
}

/// Every tile of the list is well formed.
pub open spec fn tiles_wf(tiles: Seq<Tile>) -> bool {
    forall|j: int| 0 <= j < tiles.len() ==> (#[trigger] tiles[j]).wf()
}

impl Game {
    pub open spec fn wf(&self) -> bool {
        &&& self.farm.wf()
        &&& tasks_wf(self.tasks@)
    }

    /// The ledger, the tasks and the protection flag are as in `self`.
    pub open spec fn others_same(&self, after: &Game) -> bool {
        &&& after.shop == self.shop
        &&& after.tasks@ == self.tasks@
        &&& after.bug_protection == self.bug_protection
    }

    /// The grid and the tasks are as in `self`, and the inventory differs
    /// only in the count of `item`, which moved by `delta`.
    pub open spec fn stocked(&self, after: &Game, item: Item, delta: int) -> bool {
        &&& after.farm.grid == self.farm.grid
        &&& after.farm.rows == self.farm.rows
        &&& after.farm.cols == self.farm.cols
        &&& after.farm.inventory.count(item) == self.farm.inventory.count(item) + delta
        &&& self.farm.inventory.same_except(&after.farm.inventory, item)
        &&& after.tasks@ == self.tasks@
        &&& after.bug_protection == self.bug_protection
    }

    /// `s` holds exactly this game's grid, inventory, balance and tasks.
    pub open spec fn holds_snapshot(&self, s: &GameState) -> bool {
        &&& s.rows == self.farm.rows
        &&& s.cols == self.farm.cols
        &&& s.grid@ == self.farm.grid@
        &&& s.inventory_seeds@ == self.farm.inventory.seeds@
        &&& s.inventory_crops@ == self.farm.inventory.crops@
        &&& s.inventory_fertilizers@ == self.farm.inventory.fertilizers@
        &&& s.inventory_tools@ == self.farm.inventory.tools@
        &&& s.balance == self.shop.balance
        &&& s.tasks@ == self.tasks@
    }

    /// Two games agree under every read-only accessor.
    pub open spec fn same_view(&self, other: &Game) -> bool {
        &&& self.farm.rows == other.farm.rows
        &&& self.farm.cols == other.farm.cols
        &&& self.farm.grid@ == other.farm.grid@
        &&& forall|item: Item| #[trigger] self.farm.inventory.count(item) == other.farm.inventory.count(item)
        &&& self.shop.balance == other.shop.balance
        &&& self.tasks@ == other.tasks@
    }

    /// What restoring `s` into this game yields.
    pub open spec fn restore_outcome(&self, s: &GameState) -> Result<(), RestoreError> {
        if s.rows != self.farm.rows || s.cols != self.farm.cols || s.grid.len()
            != self.farm.grid.len() {
            Err(RestoreError::GridMismatch)
        } else if s.inventory_seeds.len() != CROP_KINDS || s.inventory_crops.len() != CROP_KINDS
            || s.inventory_fertilizers.len() != FERTILIZER_KINDS || s.inventory_tools.len()
            != TOOL_KINDS {
            Err(RestoreError::InventoryMismatch)
        } else if !tiles_wf(s.grid@) {
            Err(RestoreError::InvalidTile)
        } else if !tasks_wf(s.tasks@) {
            Err(RestoreError::InvalidTask)
        } else {
            Ok(())
        }
    }

    /// A new game: a square grid whose starter corner is unlocked, an empty
    /// inventory, the starting balance and the default tasks.
    pub fn new() -> (r: Self)
        ensures
            r.wf(),
            r.farm.rows == GRID_SIDE,
            r.farm.cols == GRID_SIDE,
            forall|i: int|
                0 <= i < r.farm.grid.len() ==> #[trigger] r.farm.grid@[i] == initial_tile(
                    i,
                    GRID_SIDE as int,
                ),
            forall|item: Item| #[trigger] r.farm.inventory.count(item) == 0,
            r.shop.balance == STARTING_BALANCE,
            r.tasks@ == default_tasks_view(),
            !r.bug_protection,
    {
        let tasks = default_tasks();
        Game { farm: Farm::new(GRID_SIDE, GRID_SIDE), shop: Shop::new(), tasks, bug_protection: false }
    }

    /// Starts over with a new game.
    pub fn reset(&mut self)
        ensures
            final(self).wf(),
            final(self).farm.rows == GRID_SIDE,
            final(self).farm.cols == GRID_SIDE,
            forall|i: int|
                0 <= i < final(self).farm.grid.len() ==> #[trigger] final(self).farm.grid@[i]
                    == initial_tile(i, GRID_SIDE as int),
            forall|item: Item| #[trigger] final(self).farm.inventory.count(item) == 0,
            final(self).shop.balance == STARTING_BALANCE,
            final(self).tasks@ == default_tasks_view(),
            !final(self).bug_protection,
    {
        *self = Game::new();
    }

    /// Advances every tile by one tick. Without bug protection each growing
    /// tile may instead become infested; with it none does.
    pub fn tick(&mut self)
        requires
            old(self).wf(),
        ensures
            final(self).wf(),
            old(self).others_same(final(self)),
            final(self).farm.rows == old(self).farm.rows,
            final(self).farm.cols == old(self).farm.cols,
            final(self).farm.inventory == old(self).farm.inventory,
            final(self).farm.grid.len() == old(self).farm.grid.len(),
            forall|i: int|
                0 <= i < old(self).farm.grid.len() ==> {
                    ||| #[trigger] final(self).farm.grid@[i] == tile_after_tick(
                        old(self).farm.grid@[i],
                        false,
                    )
                    ||| (!old(self).bug_protection && final(self).farm.grid@[i] == tile_after_tick(
                        old(self).farm.grid@[i],
                        true,
                    ))
                },
    {
        if self.bug_protection {
            self.farm.tick_without_infestation();
        } else {
            self.farm.tick();
        }
    }

    /// Advances every tile by one tick with the given infestation rolls, one
    /// per tile in row-major order; under bug protection the rolls are
    /// ignored and nothing is infested.
    pub fn tick_with_rolls(&mut self, rolls: &Vec<u32>)
        requires
            old(self).wf(),
        ensures
            final(self).wf(),
            old(self).others_same(final(self)),
            final(self).farm.rows == old(self).farm.rows,
            final(self).farm.cols == old(self).farm.cols,
            final(self).farm.inventory == old(self).farm.inventory,
            final(self).farm.grid.len() == old(self).farm.grid.len(),
            forall|i: int|
                0 <= i < old(self).farm.grid.len() ==> #[trigger] final(self).farm.grid@[i]
                    == tile_after_tick(
                    old(self).farm.grid@[i],
                    !old(self).bug_protection && pest_at(rolls@, i),
                ),
    {
        if self.bug_protection {
            self.farm.tick_without_infestation();
        } else {
            self.farm.tick_with_rolls(rolls);
        }
    }

    /// Turns bug protection on and clears every current infestation.
    pub fn apply_bug_protection(&mut self)
        requires
            old(self).wf(),
        ensures
            final(self).wf(),
            final(self).bug_protection,
            final(self).shop == old(self).shop,
            final(self).tasks@ == old(self).tasks@,
            final(self).farm.rows == old(self).farm.rows,
            final(self).farm.cols == old(self).farm.cols,
            final(self).farm.inventory == old(self).farm.inventory,
            final(self).farm.grid.len() == old(self).farm.grid.len(),
            forall|i: int|
                0 <= i < old(self).farm.grid.len() ==> #[trigger] final(self).farm.grid@[i] == (
                match old(self).farm.grid@[i].state {
                    TileState::Infested { crop } => Tile {
                        state: sprouted(crop),
                        unlocked: old(self).farm.grid@[i].unlocked,
                    },
                    _ => old(self).farm.grid@[i],
                }),
    {
        self.bug_protection = true;
        self.farm.clear_all_infestations();
    }

    /// Plants `crop` at `(row, col)` using one of its seeds, and counts the
    /// planting toward every matching unfinished task.
    pub fn plant(&mut self, row: usize, col: usize, crop: CropType) -> (r: bool)
        requires
            old(self).wf(),
        ensures
            final(self).wf(),
            r == old(self).farm.plant_ok(row as int, col as int, crop),
            r ==> old(self).farm.planted(&final(self).farm, row as int, col as int, crop),
            r ==> final(self).tasks@ == tasks_after_planting(old(self).tasks@, crop),
            r ==> final(self).shop == old(self).shop,
            r ==> final(self).bug_protection == old(self).bug_protection,
            !r ==> *final(self) == *old(self),
    {
        if !self.farm.plant(row, col, crop) {
            return false;
        }
        let ghost t0 = self.tasks@;
        let n = self.tasks.len();
        let mut i: usize = 0;
        while i < n
            invariant
                self.farm.wf(),
                n == self.tasks.len(),
                t0.len() == n,
                i <= n,
                tasks_wf(t0),
                forall|j: int| 0 <= j < i ==> #[trigger] self.tasks@[j] == after_planting(t0[j], crop),
                forall|j: int| i <= j < n ==> #[trigger] self.tasks@[j] == t0[j],
                self.shop == old(self).shop,
                self.bug_protection == old(self).bug_protection,
                old(self).farm.planted(&self.farm, row as int, col as int, crop),
            decreases n - i,
        {
            let mut t = self.tasks[i];
            t.on_planted(crop);
            self.tasks.set(i, t);
            i += 1;
        }
        proof {
            assert(self.tasks@ =~= tasks_after_planting(t0, crop));
            assert forall|j: int| 0 <= j < self.tasks.len() implies (#[trigger] self.tasks@[j]).wf() by {
                planting_progress_law(t0[j], crop);
            }
        }
        true
    }

    /// Harvests a mature tile into the inventory.
    pub fn harvest(&mut self, row: usize, col: usize) -> (r: bool)
        requires
            old(self).wf(),
        ensures
            final(self).wf(),
            r == old(self).farm.harvest_ok(row as int, col as int),
            r ==> old(self).farm.harvested(&final(self).farm, row as int, col as int),
            r ==> old(self).others_same(final(self)),
            !r ==> *final(self) == *old(self),
    {
        self.farm.harvest(row, col)
    }

    /// Applies one unit of `fertilizer` to a growing, unfertilized tile.
    pub fn fertilize(&mut self, row: usize, col: usize, fertilizer: FertilizerType) -> (r: bool)
        requires
            old(self).wf(),
        ensures
            final(self).wf(),
            r == old(self).farm.fertilize_ok(row as int, col as int, fertilizer),
            r ==> old(self).farm.fertilized_at(&final(self).farm, row as int, col as int, fertilizer),
            r ==> old(self).others_same(final(self)),
            !r ==> *final(self) == *old(self),
    {
        self.farm.fertilize(row, col, fertilizer)
    }

    /// Clears the infestation of a tile with one pesticide.
    pub fn spray_tile(&mut self, row: usize, col: usize) -> (r: bool)
        requires
            old(self).wf(),
        ensures
            final(self).wf(),
            r == old(self).farm.spray_ok(row as int, col as int),
            r ==> old(self).farm.sprayed(&final(self).farm, row as int, col as int),
            r ==> old(self).others_same(final(self)),
            !r ==> *final(self) == *old(self),
    {
        self.farm.spray_tile(row, col)
    }

    /// Abandons whatever stands on a tile, crediting nothing.
    pub fn clear_tile(&mut self, row: usize, col: usize) -> (r: bool)
        requires
            old(self).wf(),
        ensures
            final(self).wf(),
            r == old(self).farm.clear_ok(row as int, col as int),
            r ==> old(self).farm.cleared(&final(self).farm, row as int, col as int),
            r ==> old(self).others_same(final(self)),
            !r ==> *final(self) == *old(self),
    {
        self.farm.clear_tile(row, col)
    }

    /// Buys a locked tile: pays the unlock cost and unlocks it.
    pub fn unlock_tile(&mut self, row: usize, col: usize) -> (r: bool)
        requires
            old(self).wf(),
        ensures
            final(self).wf(),
            r == (old(self).farm.unlock_ok(row as int, col as int) && old(self).shop.balance
                >= UNLOCK_COST),
            r ==> old(self).farm.unlocked_at(&final(self).farm, row as int, col as int),
            r ==> final(self).shop.balance == old(self).shop.balance - UNLOCK_COST,
            r ==> final(self).tasks@ == old(self).tasks@,
            r ==> final(self).bug_protection == old(self).bug_protection,
            !r ==> *final(self) == *old(self),
    {
        match self.farm.get_tile(row, col) {
            Some(t) => {
                if t.unlocked || self.shop.balance < UNLOCK_COST {
                    return false;
                }
            },
            None => {
                return false;
            },
        }
        self.shop.pay(UNLOCK_COST);
        self.farm.unlock(row, col);
        true
    }

    /// Pays `price` and adds one `item`, where the balance covers the price
    /// and the count has room; otherwise nothing changes.
    fn buy_item(&mut self, item: Item, price: u32) -> (r: bool)
        requires
            old(self).wf(),
        ensures
            final(self).wf(),
            r == (old(self).shop.balance >= price && old(self).farm.inventory.count(item)
                < u32::MAX),
            r ==> final(self).shop.balance == old(self).shop.balance - price,
            r ==> old(self).stocked(final(self), item, 1),
            !r ==> *final(self) == *old(self),
    {
        if self.farm.inventory.get_count(item) == u32::MAX || self.shop.balance < price {
            return false;
        }
        self.shop.pay(price);
        self.farm.inventory.add(item, 1);
        true
    }

    /// Buys one seed of `crop`: the balance drops by exactly its price and
    /// the seed count rises by one, or nothing changes at all.
    pub fn buy_seed(&mut self, crop: CropType) -> (r: bool)
        requires
            old(self).wf(),
        ensures
            final(self).wf(),
            r == (old(self).shop.balance >= seed_price(crop) && old(self).farm.inventory.count(
                Item::Seed(crop),
            ) < u32::MAX),
            r ==> final(self).shop.balance == old(self).shop.balance - seed_price(crop),
            r ==> old(self).stocked(final(self), Item::Seed(crop), 1),
            !r ==> *final(self) == *old(self),
    {
        let price = Shop::seed_price_of(crop);
        self.buy_item(Item::Seed(crop), price)
    }

    /// Buys one unit of a fertilizer that is for sale.
    pub fn buy_fertilizer(&mut self, fertilizer: FertilizerType) -> (r: bool)
        requires
            old(self).wf(),
        ensures
            final(self).wf(),
            r == (fertilizer_price(fertilizer) matches Some(p) && old(self).shop.balance >= p
                && old(self).farm.inventory.count(Item::Fertilizer(fertilizer)) < u32::MAX),
            r ==> final(self).shop.balance == old(self).shop.balance - fertilizer_price(
                fertilizer,
            ).unwrap(),
            r ==> old(self).stocked(final(self), Item::Fertilizer(fertilizer), 1),
            !r ==> *final(self) == *old(self),
    {
        match Shop::fertilizer_price_of(fertilizer) {
            Some(price) => self.buy_item(Item::Fertilizer(fertilizer), price),
            None => false,
        }
    }

    /// Buys one pesticide.
    pub fn buy_pesticide(&mut self) -> (r: bool)
        requires
            old(self).wf(),
        ensures
            final(self).wf(),
            r == (old(self).shop.balance >= PESTICIDE_PRICE && old(self).farm.inventory.count(
                Item::Pesticide,
            ) < u32::MAX),
            r ==> final(self).shop.balance == old(self).shop.balance - PESTICIDE_PRICE,
            r ==> old(self).stocked(final(self), Item::Pesticide, 1),
            !r ==> *final(self) == *old(self),
    {
        self.buy_item(Item::Pesticide, PESTICIDE_PRICE)
    }

    /// Sells one harvested `crop`: it leaves the inventory and its price is
    /// credited, or nothing changes at all.
    pub fn sell_crop(&mut self, crop: CropType) -> (r: bool)
        requires
            old(self).wf(),
        ensures
            final(self).wf(),
            r == (old(self).farm.inventory.count(Item::Crop(crop)) > 0 && old(self).shop.balance
                + crop_price(crop) <= u32::MAX),
            r ==> final(self).shop.balance == old(self).shop.balance + crop_price(crop),
            r ==> old(self).stocked(final(self), Item::Crop(crop), -1),
            !r ==> *final(self) == *old(self),
    {
        let price = crop.sell_price();
        if self.farm.inventory.get_count(Item::Crop(crop)) == 0 || self.shop.balance > u32::MAX
            - price {
            return false;
        }
        self.farm.inventory.remove(Item::Crop(crop), 1);
        self.shop.earn(price);
        true
    }

    /// Position of the first task carrying `id`.
    fn find_task(&self, id: u32) -> (r: Option<usize>)
        ensures
            r matches Some(i) ==> first_with_id(self.tasks@, id, i as int),
            r is None ==> no_task_with_id(self.tasks@, id),
    {
        let n = self.tasks.len();
        let mut i: usize = 0;
        while i < n
            invariant
                i <= n,
                n == self.tasks.len(),
                forall|j: int| 0 <= j < i ==> (#[trigger] self.tasks@[j]).id != id,
            decreases n - i,
        {
            if self.tasks[i].id == id {
                return Some(i);
            }
            i += 1;
        }
        None
    }

    /// Pays out the reward of the first task carrying `id`, where it is
    /// completed, not yet claimed, and the balance has room; it is then
    /// marked claimed. Otherwise nothing changes.
    pub fn claim_task_reward(&mut self, id: u32) -> (r: bool)
        requires
            old(self).wf(),
        ensures
            final(self).wf(),
            no_task_with_id(old(self).tasks@, id) ==> !r,
            forall|i: int|
                #[trigger] first_with_id(old(self).tasks@, id, i) ==> {
                    &&& r == (old(self).tasks@[i].claimable() && old(self).shop.balance
                        + old(self).tasks@[i].reward <= u32::MAX)
                    &&& r ==> final(self).tasks@ == old(self).tasks@.update(
                        i,
                        Task { claimed: true, ..old(self).tasks@[i] },
                    )
                    &&& r ==> final(self).shop.balance == old(self).shop.balance
                        + old(self).tasks@[i].reward
                },
            r ==> final(self).farm == old(self).farm,
            r ==> final(self).bug_protection == old(self).bug_protection,
            !r ==> *final(self) == *old(self),
    {
        match self.find_task(id) {
            Some(i) => {
                let t = self.tasks[i];
                if !t.completed || t.claimed || self.shop.balance > u32::MAX - t.reward {
                    return false;
                }
                self.shop.earn(t.reward);
                self.tasks.set(i, Task { claimed: true, ..t });
                proof {
                    assert forall|k: int| first_with_id(old(self).tasks@, id, k) implies k == i by {
                        if k < i {
                            assert(old(self).tasks@[k].id != id);
                        } else if k > i {
                            assert(old(self).tasks@[i as int].id != id);
                        }
                    }
                }
                true
            },
            None => false,
        }
    }

    pub fn get_balance(&self) -> (r: u32)
        ensures
            r == self.shop.balance,
    {
        self.shop.get_balance()
    }

    /// A copy of the task list.
    pub fn get_tasks(&self) -> (r: Vec<Task>)
        ensures
            r@ == self.tasks@,
    {
        copy_vec(&self.tasks)
    }

    /// The state of the tile at `(row, col)`, where it lies in the grid.
    pub fn get_state(&self, row: usize, col: usize) -> (r: Option<TileState>)
        requires
            self.wf(),
        ensures
            r == (if self.farm.in_bounds(row as int, col as int) {
                Some(self.farm.tile_at(row as int, col as int).state)
            } else {
                None::<TileState>
            }),
    {
        match self.farm.get_tile(row, col) {
            Some(t) => Some(t.state),
            None => None,
        }
    }

    /// The display description of the tile at `(row, col)`.
    pub fn get_crop_info(&self, row: usize, col: usize) -> (r: Option<TileInfo>)
        requires
            self.wf(),
        ensures
            r == (if self.farm.in_bounds(row as int, col as int) {
                Some(info_of(self.farm.tile_at(row as int, col as int).state))
            } else {
                None::<TileInfo>
            }),
    {
        self.farm.get_crop_info(row, col)
    }

    /// Seed, crop, fertilizer and tool counts, indexed by kind.
    pub fn get_full_inventory(&self) -> (r: (Vec<u32>, Vec<u32>, Vec<u32>, Vec<u32>))
        requires
            self.wf(),
        ensures
            r.0@ == self.farm.inventory.seeds@,
            r.1@ == self.farm.inventory.crops@,
            r.2@ == self.farm.inventory.fertilizers@,
            r.3@ == self.farm.inventory.tools@,
    {
        let (seeds, crops, fertilizers) = self.farm.get_full_inventory();
        (seeds, crops, fertilizers, self.farm.inventory.get_tools())
    }

    /// Seed and crop counts, indexed by crop kind.
    pub fn get_inventory(&self) -> (r: (Vec<u32>, Vec<u32>))
        requires
            self.wf(),
        ensures
            r.0@ == self.farm.inventory.seeds@,
            r.1@ == self.farm.inventory.crops@,
    {
        self.farm.get_inventory()
    }

    /// Captures the grid, the inventory, the balance and the tasks.
    pub fn snapshot(&self) -> (r: GameState)
        requires
            self.wf(),
        ensures
            self.holds_snapshot(&r),
    {
        GameState {
            rows: self.farm.rows,
            cols: self.farm.cols,
            grid: copy_vec(&self.farm.grid),
            inventory_seeds: copy_vec(&self.farm.inventory.seeds),
            inventory_crops: copy_vec(&self.farm.inventory.crops),
            inventory_fertilizers: copy_vec(&self.farm.inventory.fertilizers),
            inventory_tools: copy_vec(&self.farm.inventory.tools),
            balance: self.shop.balance,
            tasks: copy_vec(&self.tasks),
        }
    }

    /// Replaces the grid, the inventory, the balance and the tasks with the
    /// saved ones. A state of other dimensions, or one that breaks an
    /// invariant, is refused and nothing changes.
    pub fn restore(&mut self, state: GameState) -> (r: Result<(), RestoreError>)
        requires
            old(self).wf(),
        ensures
            final(self).wf(),
            r == old(self).restore_outcome(&state),
            r is Ok ==> final(self).holds_snapshot(&state),
            r is Ok ==> final(self).bug_protection == old(self).bug_protection,
            r is Err ==> *final(self) == *old(self),
    {
        if state.rows != self.farm.rows || state.cols != self.farm.cols || state.grid.len()
            != self.farm.grid.len() {
            return Err(RestoreError::GridMismatch);
        }
        if state.inventory_seeds.len() != CROP_KINDS || state.inventory_crops.len() != CROP_KINDS
            || state.inventory_fertilizers.len() != FERTILIZER_KINDS
            || state.inventory_tools.len() != TOOL_KINDS {
            return Err(RestoreError::InventoryMismatch);
        }
        if !all_tiles_wf(&state.grid) {
            return Err(RestoreError::InvalidTile);
        }
        if !all_tasks_wf(&state.tasks) {
            return Err(RestoreError::InvalidTask);
        }
        let GameState {
            grid,
            inventory_seeds,
            inventory_crops,
            inventory_fertilizers,
            inventory_tools,
            balance,
            tasks,
            ..
        } = state;
        self.farm.grid = grid;
        self.farm.inventory = Inventory {
            seeds: inventory_seeds,
            crops: inventory_crops,
            fertilizers: inventory_fertilizers,
            tools: inventory_tools,
        };
        self.shop.balance = balance;
        self.tasks = tasks;
        Ok(())
    }
}

/// Whether a tile is growing within its crop's base growth time.
fn tile_wf(t: &Tile) -> (r: bool)
    ensures
        r == t.wf(),
{
    match t.state {
        TileState::Planted { crop, timer, .. } => timer < crop.base_growth_time(),
        _ => true,
    }
}

/// Whether every saved tile is well formed.
fn all_tiles_wf(tiles: &Vec<Tile>) -> (r: bool)
    ensures
        r == tiles_wf(tiles@),
{
    let mut i: usize = 0;
    while i < tiles.len()
        invariant
            i <= tiles.len(),
            forall|j: int| 0 <= j < i ==> (#[trigger] tiles@[j]).wf(),
        decreases tiles.len() - i,
    {
        if !tile_wf(&tiles[i]) {
            return false;
        }
        i += 1;
    }
    true
}

/// Whether every saved task is well formed.
fn all_tasks_wf(tasks: &Vec<Task>) -> (r: bool)
    ensures
        r == tasks_wf(tasks@),
{
    let mut i: usize = 0;
    while i < tasks.len()
        invariant
            i <= tasks.len(),
            forall|j: int| 0 <= j < i ==> (#[trigger] tasks@[j]).wf(),
        decreases tasks.len() - i,
    {
        let t = tasks[i];
        if !(t.progress <= t.target && t.completed == (t.progress == t.target) && (!t.claimed
            || t.completed)) {
            return false;
        }
        i += 1;
    }
    true
}

/// A reward is paid at most once: after a successful claim of the first
/// task carrying `id`, that task is still the first one carrying `id`, and
/// it is no longer claimable, so claiming `id` again fails.
pub proof fn claim_once_law(before: Game, after: Game, id: u32, i: int)
    requires
        before.wf(),
        first_with_id(before.tasks@, id, i),
        after.tasks@ == before.tasks@.update(i, Task { claimed: true, ..before.tasks@[i] }),
    ensures
        first_with_id(after.tasks@, id, i),
        forall|k: int| #[trigger] first_with_id(after.tasks@, id, k) ==> k == i,
        !after.tasks@[i].claimable(),
{
    assert forall|k: int| #[trigger] first_with_id(after.tasks@, id, k) implies k == i by {
        if k < i {
            assert(after.tasks@[k].id != id);
        } else if k > i {
            assert(after.tasks@[i].id != id);
        }
    }
}

/// Restoring a snapshot reproduces the game it was taken from: any game of
/// the same dimensions accepts the snapshot, and the restored game agrees
/// with the snapshotted game under every read-only accessor, so it also ticks the
/// same way.
pub proof fn snapshot_restore_law(g: Game, s: GameState, target: Game, restored: Game)
    requires
        g.wf(),
        g.holds_snapshot(&s),
        target.wf(),
        target.farm.rows == g.farm.rows,
        target.farm.cols == g.farm.cols,
        restored.holds_snapshot(&s),
    ensures
        target.restore_outcome(&s) == Ok::<(), RestoreError>(()),
        restored.same_view(&g),
        forall|i: int, pest: bool|
            0 <= i < g.farm.grid.len() ==> #[trigger] tile_after_tick(restored.farm.grid@[i], pest)
                == tile_after_tick(g.farm.grid@[i], pest),
{
    assert(s.grid.len() == target.farm.grid.len()) by {
        assert(s.grid@.len() == g.farm.grid@.len());
    }
    assert(tiles_wf(s.grid@));
    assert(tasks_wf(s.tasks@));
}

} // verus!
