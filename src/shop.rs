//! The shop ledger: the player's balance and the static price tables.
use vstd::prelude::*;
use crate::tile::{CropType, FertilizerType, crop_price, crop_of_key, fertilizer_of_key};

verus! {

/// Balance of a new game.
pub const STARTING_BALANCE: u32 = 100;

/// Price of one pesticide.
pub const PESTICIDE_PRICE: u32 = 20;

/// Price of unlocking one tile.
pub const UNLOCK_COST: u32 = 50;

/// Price of a seed of each crop kind.
pub open spec fn seed_price(c: CropType) -> nat {
    match c {
        CropType::Wheat => 10,
        CropType::PremiumWheat => 25,
        CropType::GoldenWheat => 50,
        CropType::Corn => 20,
        CropType::PremiumCorn => 35,
        CropType::GoldenCorn => 60,
        CropType::Carrot => 15,
        CropType::PremiumCarrot => 30,
        CropType::GoldenCarrot => 55,
    }
}

/// Price of each fertilizer; the absence of fertilizer is not for sale.
pub open spec fn fertilizer_price(f: FertilizerType) -> Option<nat> {
    match f {
        FertilizerType::Unfertilized => None,
        FertilizerType::Basic => Some(25),
        FertilizerType::Premium => Some(50),
        FertilizerType::Super => Some(80),
    }
}

/// The player's purse.
#[derive(Clone, Copy, PartialEq, Eq, Structural, Debug)]
pub struct Shop {
    pub balance: u32,
}

impl Shop {
    /// A ledger holding the starting balance.
    pub fn new() -> (r: Self)
        ensures
            r.balance == STARTING_BALANCE,
    {
        Shop { balance: STARTING_BALANCE }
    }

    pub fn get_balance(&self) -> (r: u32)
        ensures
            r == self.balance,
    {
        self.balance
    }

    /// Debits `amount` where the balance covers it.
    pub fn pay(&mut self, amount: u32) -> (r: bool)
        ensures
            r == (old(self).balance >= amount),
            r ==> final(self).balance == old(self).balance - amount,
            !r ==> *final(self) == *old(self),
    {
        if self.balance >= amount {
            self.balance = self.balance - amount;
            true
        } else {
            false
        }
    }

    /// Credits `amount` where the balance stays within a `u32`.
    pub fn earn(&mut self, amount: u32) -> (r: bool)
        ensures
            r == (old(self).balance + amount <= u32::MAX),
            r ==> final(self).balance == old(self).balance + amount,
            !r ==> *final(self) == *old(self),
    {
        if self.balance <= u32::MAX - amount {
            self.balance = self.balance + amount;
            true
        } else {
            false
        }
    }

    /// The price of a seed of `crop`.
    pub fn seed_price_of(crop: CropType) -> (r: u32)
        ensures
            r == seed_price(crop),
    {
        match crop {
            CropType::Wheat => 10,
            CropType::PremiumWheat => 25,
            CropType::GoldenWheat => 50,
            CropType::Corn => 20,
            CropType::PremiumCorn => 35,
            CropType::GoldenCorn => 60,
            CropType::Carrot => 15,
            CropType::PremiumCarrot => 30,
            CropType::GoldenCarrot => 55,
        }
    }

    /// The price of a fertilizer, where it is for sale.
    pub fn fertilizer_price_of(fertilizer: FertilizerType) -> (r: Option<u32>)
        ensures
            r == (match fertilizer_price(fertilizer) {
                Some(p) => Some(p as u32),
                None => None::<u32>,
            }),
    {
        match fertilizer {
            FertilizerType::Unfertilized => None,
            FertilizerType::Basic => Some(25),
            FertilizerType::Premium => Some(50),
            FertilizerType::Super => Some(80),
        }
    }

    /// Pays for one seed of `crop`; the caller credits the inventory.
    pub fn buy_seed(&mut self, crop: CropType) -> (r: bool)
        ensures
            r == (old(self).balance >= seed_price(crop)),
            r ==> final(self).balance == old(self).balance - seed_price(crop),
            !r ==> *final(self) == *old(self),
    {
        let price = Shop::seed_price_of(crop);
        self.pay(price)
    }

    /// Pays for one unit of a fertilizer that is for sale; the caller credits
    /// the inventory.
    pub fn buy_fertilizer(&mut self, fertilizer: FertilizerType) -> (r: bool)
        ensures
            r == (fertilizer_price(fertilizer) matches Some(p) && old(self).balance >= p),
            r ==> final(self).balance == old(self).balance - fertilizer_price(fertilizer).unwrap(),
            !r ==> *final(self) == *old(self),
    {
        match Shop::fertilizer_price_of(fertilizer) {
            Some(price) => self.pay(price),
            None => false,
        }
    }

    /// Credits the sell price of one `crop`; the caller takes it from the
    /// inventory. Fails, changing nothing, where the balance would overflow.
    pub fn sell_crop(&mut self, crop: CropType) -> (r: bool)
        ensures
            r == (old(self).balance + crop_price(crop) <= u32::MAX),
            r ==> final(self).balance == old(self).balance + crop_price(crop),
            !r ==> *final(self) == *old(self),
    {
        let price = crop.sell_price();
        self.earn(price)
    }

    /// The price of a seed, by the crop's key.
    pub fn get_seed_price(&self, crop_type: &str) -> (r: Option<u32>)
        ensures
            r == (match crop_of_key(crop_type@) {
                Some(c) => Some(seed_price(c) as u32),
                None => None::<u32>,
            }),
    {
        match CropType::from_key(crop_type) {
            Some(c) => Some(Shop::seed_price_of(c)),
            None => None,
        }
    }

    /// The price of a fertilizer, by its key.
    pub fn get_fertilizer_price(&self, fertilizer_type: &str) -> (r: Option<u32>)
        ensures
            r == (match fertilizer_price(fertilizer_of_key(fertilizer_type@)) {
                Some(p) => Some(p as u32),
                None => None::<u32>,
            }),
    {
        Shop::fertilizer_price_of(FertilizerType::from_string(fertilizer_type))
    }

    /// The sell price of a crop, by its key.
    pub fn get_crop_price(&self, crop_type: &str) -> (r: Option<u32>)
        ensures
            r == (match crop_of_key(crop_type@) {
                Some(c) => Some(crop_price(c) as u32),
                None => None::<u32>,
            }),
    {
        match CropType::from_key(crop_type) {
            Some(c) => Some(c.sell_price()),
            None => None,
        }
    }
}

} // verus!
