//! Per-category item counts: seeds, harvested crops, fertilizers and tools.
use vstd::prelude::*;
use crate::tile::{CropType, FertilizerType, crop_index, fertilizer_index, CROP_KINDS, FERTILIZER_KINDS};

verus! {

/// Number of tool kinds; the only tool is the pesticide.
pub const TOOL_KINDS: usize = 1;

/// One countable inventory entry: a category together with its key.
#[derive(Clone, Copy, PartialEq, Eq, Structural, Debug)]
pub enum Item {
    Seed(CropType),
    Crop(CropType),
    Fertilizer(FertilizerType),
    Pesticide,
}

/// Counts of every item, one table per category, indexed by kind.
/// A count of zero means the item is absent.
#[derive(Clone, Debug)]
pub struct Inventory {
    pub seeds: Vec<u32>,
    pub crops: Vec<u32>,
    pub fertilizers: Vec<u32>,
    pub tools: Vec<u32>,
}

impl Inventory {
    pub open spec fn wf(&self) -> bool {
        &&& self.seeds.len() == CROP_KINDS
        &&& self.crops.len() == CROP_KINDS
        &&& self.fertilizers.len() == FERTILIZER_KINDS
        &&& self.tools.len() == TOOL_KINDS
    }

    /// How many of `item` are held.
    pub open spec fn count(&self, item: Item) -> u32 {
        match item {
            Item::Seed(c) => self.seeds@[crop_index(c) as int],
            Item::Crop(c) => self.crops@[crop_index(c) as int],
            Item::Fertilizer(f) => self.fertilizers@[fertilizer_index(f) as int],
            Item::Pesticide => self.tools@[0],
        }
    }

    /// Same tables, and the same count of every item but `item`.
    pub open spec fn same_except(&self, other: &Inventory, item: Item) -> bool {
        &&& other.wf()
        &&& forall|j: Item| j != item ==> #[trigger] other.count(j) == self.count(j)
    }

    /// An empty inventory.
    pub fn new() -> (r: Self)
        ensures
            r.wf(),
            forall|item: Item| #[trigger] r.count(item) == 0,
    {
        Inventory {
            seeds: vec![0u32; CROP_KINDS],
            crops: vec![0u32; CROP_KINDS],
            fertilizers: vec![0u32; FERTILIZER_KINDS],
            tools: vec![0u32; TOOL_KINDS],
        }
    }

    /// How many of `item` are held.
    pub fn get_count(&self, item: Item) -> (r: u32)
        requires
            self.wf(),
        ensures
            r == self.count(item),
    {
        match item {
            Item::Seed(c) => self.seeds[c.index()],
            Item::Crop(c) => self.crops[c.index()],
            Item::Fertilizer(f) => self.fertilizers[f.index()],
            Item::Pesticide => self.tools[0],
        }
    }

    /// Overwrites the count of one item.
    fn set_count(&mut self, item: Item, n: u32)
        requires
            old(self).wf(),
        ensures
            final(self).count(item) == n,
            old(self).same_except(final(self), item),
    {
        match item {
            Item::Seed(c) => self.seeds.set(c.index(), n),
            Item::Crop(c) => self.crops.set(c.index(), n),
            Item::Fertilizer(f) => self.fertilizers.set(f.index(), n),
            Item::Pesticide => self.tools.set(0, n),
        }
    }

    /// Adds `n` of `item`. Fails, changing nothing, where the count would
    /// no longer fit in a `u32`.
    pub fn add(&mut self, item: Item, n: u32) -> (r: bool)
        requires
            old(self).wf(),
        ensures
            final(self).wf(),
            r == (old(self).count(item) + n <= u32::MAX),
            r ==> final(self).count(item) == old(self).count(item) + n,
            r ==> old(self).same_except(final(self), item),
            !r ==> *final(self) == *old(self),
    {
        let c = self.get_count(item);
        if c > u32::MAX - n {
            return false;
        }
        self.set_count(item, c + n);
        true
    }

    /// Removes `n` of `item`. Fails, changing nothing, where fewer than `n`
    /// are held: counts never go below zero.
    pub fn remove(&mut self, item: Item, n: u32) -> (r: bool)
        requires
            old(self).wf(),
        ensures
            final(self).wf(),
            r == (n <= old(self).count(item)),
            r ==> final(self).count(item) == old(self).count(item) - n,
            r ==> old(self).same_except(final(self), item),
            !r ==> *final(self) == *old(self),
    {
        let c = self.get_count(item);
        if c < n {
            return false;
        }
        self.set_count(item, c - n);
        true
    }

    /// Adds one seed of a crop kind.
    pub fn add_seed(&mut self, seed: CropType) -> (r: bool)
        requires
            old(self).wf(),
        ensures
            final(self).wf(),
            r == (old(self).count(Item::Seed(seed)) < u32::MAX),
            r ==> final(self).count(Item::Seed(seed)) == old(self).count(Item::Seed(seed)) + 1,
            r ==> old(self).same_except(final(self), Item::Seed(seed)),
            !r ==> *final(self) == *old(self),
    {
        self.add(Item::Seed(seed), 1)
    }

    /// Adds one harvested crop.
    pub fn add_crop(&mut self, crop: CropType) -> (r: bool)
        requires
            old(self).wf(),
        ensures
            final(self).wf(),
            r == (old(self).count(Item::Crop(crop)) < u32::MAX),
            r ==> final(self).count(Item::Crop(crop)) == old(self).count(Item::Crop(crop)) + 1,
            r ==> old(self).same_except(final(self), Item::Crop(crop)),
            !r ==> *final(self) == *old(self),
    {
        self.add(Item::Crop(crop), 1)
    }

    /// Adds one unit of a fertilizer.
    pub fn add_fertilizer(&mut self, fertilizer: FertilizerType) -> (r: bool)
        requires
            old(self).wf(),
        ensures
            final(self).wf(),
            r == (old(self).count(Item::Fertilizer(fertilizer)) < u32::MAX),
            r ==> final(self).count(Item::Fertilizer(fertilizer)) == old(self).count(
                Item::Fertilizer(fertilizer),
            ) + 1,
            r ==> old(self).same_except(final(self), Item::Fertilizer(fertilizer)),
            !r ==> *final(self) == *old(self),
    {
        self.add(Item::Fertilizer(fertilizer), 1)
    }

    /// Takes one seed of a crop kind, if any is held.
    pub fn remove_seed(&mut self, seed: CropType) -> (r: bool)
        requires
            old(self).wf(),
        ensures
            final(self).wf(),
            r == (old(self).count(Item::Seed(seed)) > 0),
            r ==> final(self).count(Item::Seed(seed)) == old(self).count(Item::Seed(seed)) - 1,
            r ==> old(self).same_except(final(self), Item::Seed(seed)),
            !r ==> *final(self) == *old(self),
    {
        self.remove(Item::Seed(seed), 1)
    }

    /// Takes one harvested crop, if any is held.
    pub fn remove_crop(&mut self, crop: CropType) -> (r: bool)
        requires
            old(self).wf(),
        ensures
            final(self).wf(),
            r == (old(self).count(Item::Crop(crop)) > 0),
            r ==> final(self).count(Item::Crop(crop)) == old(self).count(Item::Crop(crop)) - 1,
            r ==> old(self).same_except(final(self), Item::Crop(crop)),
            !r ==> *final(self) == *old(self),
    {
        self.remove(Item::Crop(crop), 1)
    }

    /// Takes one unit of a fertilizer, if any is held.
    pub fn remove_fertilizer(&mut self, fertilizer: FertilizerType) -> (r: bool)
        requires
            old(self).wf(),
        ensures
            final(self).wf(),
            r == (old(self).count(Item::Fertilizer(fertilizer)) > 0),
            r ==> final(self).count(Item::Fertilizer(fertilizer)) == old(self).count(
                Item::Fertilizer(fertilizer),
            ) - 1,
            r ==> old(self).same_except(final(self), Item::Fertilizer(fertilizer)),
            !r ==> *final(self) == *old(self),
    {
        self.remove(Item::Fertilizer(fertilizer), 1)
    }

    /// Seed and crop counts, indexed by crop kind.
    pub fn get_items(&self) -> (r: (Vec<u32>, Vec<u32>))
        requires
            self.wf(),
        ensures
            r.0@ == self.seeds@,
            r.1@ == self.crops@,
    {
        (copy_vec(&self.seeds), copy_vec(&self.crops))
    }

    /// Seed, crop and fertilizer counts, indexed by kind.
    pub fn get_all_items(&self) -> (r: (Vec<u32>, Vec<u32>, Vec<u32>))
        requires
            self.wf(),
        ensures
            r.0@ == self.seeds@,
            r.1@ == self.crops@,
            r.2@ == self.fertilizers@,
    {
        (copy_vec(&self.seeds), copy_vec(&self.crops), copy_vec(&self.fertilizers))
    }

    /// Tool counts, indexed by tool kind.
    pub fn get_tools(&self) -> (r: Vec<u32>)
        requires
            self.wf(),
        ensures
            r@ == self.tools@,
    {
        copy_vec(&self.tools)
    }
}

/// A fresh copy of a vector of plain values.
pub fn copy_vec<T: Copy>(v: &Vec<T>) -> (r: Vec<T>)
    ensures
        r@ == v@,
{
    let mut r: Vec<T> = Vec::new();
    let mut i: usize = 0;
    while i < v.len()
        invariant
            i <= v.len(),
            r@ == v@.subrange(0, i as int),
        decreases v.len() - i,
    {
        r.push(v[i]);
        i += 1;
    }
    assert(r@ =~= v@);
    r
}

} // verus!
