//! Crop and fertilizer catalog, and the per-tile lifecycle state machine.
use vstd::prelude::*;

verus! {

/// The plantable crop kinds.
#[derive(Clone, Copy, PartialEq, Eq, Structural, Debug)]
pub enum CropType {
    Wheat,
    PremiumWheat,
    GoldenWheat,
    Corn,
    PremiumCorn,
    GoldenCorn,
    Carrot,
    PremiumCarrot,
    GoldenCarrot,
}

/// The fertilizer kinds; `Unfertilized` stands for a tile without fertilizer.
#[derive(Clone, Copy, PartialEq, Eq, Structural, Debug)]
pub enum FertilizerType {
    Unfertilized,
    Basic,
    Premium,
    Super,
}

/// Number of crop kinds.
pub const CROP_KINDS: usize = 9;

/// Number of fertilizer kinds, `Unfertilized` included.
pub const FERTILIZER_KINDS: usize = 4;

/// Base growth duration of each crop, in ticks.
pub open spec fn base_time(c: CropType) -> nat {
    match c {
        CropType::Wheat => 10,
        CropType::PremiumWheat => 14,
        CropType::GoldenWheat => 20,
        CropType::Corn => 15,
        CropType::PremiumCorn => 20,
        CropType::GoldenCorn => 28,
        CropType::Carrot => 12,
        CropType::PremiumCarrot => 16,
        CropType::GoldenCarrot => 24,
    }
}

/// Sell price of each crop.
pub open spec fn crop_price(c: CropType) -> nat {
    match c {
        CropType::Wheat => 15,
        CropType::PremiumWheat => 25,
        CropType::GoldenWheat => 50,
        CropType::Corn => 25,
        CropType::PremiumCorn => 40,
        CropType::GoldenCorn => 70,
        CropType::Carrot => 20,
        CropType::PremiumCarrot => 32,
        CropType::GoldenCarrot => 60,
    }
}

/// Growth-time multiplier of each fertilizer, in percent.
pub open spec fn speed_percent(f: FertilizerType) -> nat {
    match f {
        FertilizerType::Unfertilized => 100,
        FertilizerType::Basic => 80,
        FertilizerType::Premium => 65,
        FertilizerType::Super => 50,
    }
}

/// Growth duration of a crop under a fertilizer: the base duration scaled by
/// the fertilizer's multiplier, truncated to an integer.
pub open spec fn adjusted_time(c: CropType, f: FertilizerType) -> nat {
    base_time(c) * speed_percent(f) / 100
}

/// Position of a crop kind in per-kind tables.
pub open spec fn crop_index(c: CropType) -> nat {
    match c {
        CropType::Wheat => 0,
        CropType::PremiumWheat => 1,
        CropType::GoldenWheat => 2,
        CropType::Corn => 3,
        CropType::PremiumCorn => 4,
        CropType::GoldenCorn => 5,
        CropType::Carrot => 6,
        CropType::PremiumCarrot => 7,
        CropType::GoldenCarrot => 8,
    }
}

/// Position of a fertilizer kind in per-kind tables.
pub open spec fn fertilizer_index(f: FertilizerType) -> nat {
    match f {
        FertilizerType::Unfertilized => 0,
        FertilizerType::Basic => 1,
        FertilizerType::Premium => 2,
        FertilizerType::Super => 3,
    }
}

/// The crop kind at a position of a per-kind table.
pub open spec fn crop_at_index(i: nat) -> CropType {
    if i == 0 {
        CropType::Wheat
    } else if i == 1 {
        CropType::PremiumWheat
    } else if i == 2 {
        CropType::GoldenWheat
    } else if i == 3 {
        CropType::Corn
    } else if i == 4 {
        CropType::PremiumCorn
    } else if i == 5 {
        CropType::GoldenCorn
    } else if i == 6 {
        CropType::Carrot
    } else if i == 7 {
        CropType::PremiumCarrot
    } else {
        CropType::GoldenCarrot
    }
}

/// The textual key of each crop kind, as used by the shop and by saved games.
pub open spec fn crop_key(c: CropType) -> Seq<char> {
    match c {
        CropType::Wheat => "wheat"@,
        CropType::PremiumWheat => "premium_wheat"@,
        CropType::GoldenWheat => "golden_wheat"@,
        CropType::Corn => "corn"@,
        CropType::PremiumCorn => "premium_corn"@,
        CropType::GoldenCorn => "golden_corn"@,
        CropType::Carrot => "carrot"@,
        CropType::PremiumCarrot => "premium_carrot"@,
        CropType::GoldenCarrot => "golden_carrot"@,
    }
}

/// The crop kind whose key is `s`, if any.
pub open spec fn crop_of_key(s: Seq<char>) -> Option<CropType> {
    if s == crop_key(CropType::Wheat) {
        Some(CropType::Wheat)
    } else if s == crop_key(CropType::PremiumWheat) {
        Some(CropType::PremiumWheat)
    } else if s == crop_key(CropType::GoldenWheat) {
        Some(CropType::GoldenWheat)
    } else if s == crop_key(CropType::Corn) {
        Some(CropType::Corn)
    } else if s == crop_key(CropType::PremiumCorn) {
        Some(CropType::PremiumCorn)
    } else if s == crop_key(CropType::GoldenCorn) {
        Some(CropType::GoldenCorn)
    } else if s == crop_key(CropType::Carrot) {
        Some(CropType::Carrot)
    } else if s == crop_key(CropType::PremiumCarrot) {
        Some(CropType::PremiumCarrot)
    } else if s == crop_key(CropType::GoldenCarrot) {
        Some(CropType::GoldenCarrot)
    } else {
        None
    }
}

/// The textual key of each fertilizer kind; `Unfertilized` has none.
pub open spec fn fertilizer_key(f: FertilizerType) -> Seq<char> {
    match f {
        FertilizerType::Unfertilized => Seq::empty(),
        FertilizerType::Basic => "basic_fertilizer"@,
        FertilizerType::Premium => "premium_fertilizer"@,
        FertilizerType::Super => "super_fertilizer"@,
    }
}

/// The fertilizer named by `s`; any other text names no fertilizer.
pub open spec fn fertilizer_of_key(s: Seq<char>) -> FertilizerType {
    if s == fertilizer_key(FertilizerType::Basic) {
        FertilizerType::Basic
    } else if s == fertilizer_key(FertilizerType::Premium) {
        FertilizerType::Premium
    } else if s == fertilizer_key(FertilizerType::Super) {
        FertilizerType::Super
    } else {
        FertilizerType::Unfertilized
    }
}

/// Whether two strings hold the same characters.
fn same_text(a: &str, b: &str) -> (r: bool)
    ensures
        r == (a@ == b@),
{
    let x = a.to_owned();
    let y = b.to_owned();
    x == y
}

impl CropType {
    pub fn sell_price(&self) -> (r: u32)
        ensures
            r == crop_price(*self),
    {
        match self {
            CropType::Wheat => 15,
            CropType::PremiumWheat => 25,
            CropType::GoldenWheat => 50,
            CropType::Corn => 25,
            CropType::PremiumCorn => 40,
            CropType::GoldenCorn => 70,
            CropType::Carrot => 20,
            CropType::PremiumCarrot => 32,
            CropType::GoldenCarrot => 60,
        }
    }

    pub fn base_growth_time(&self) -> (r: u32)
        ensures
            r == base_time(*self),
    {
        match self {
            CropType::Wheat => 10,
            CropType::PremiumWheat => 14,
            CropType::GoldenWheat => 20,
            CropType::Corn => 15,
            CropType::PremiumCorn => 20,
            CropType::GoldenCorn => 28,
            CropType::Carrot => 12,
            CropType::PremiumCarrot => 16,
            CropType::GoldenCarrot => 24,
        }
    }

    pub fn growth_time_with_fertilizer(&self, fertilizer: FertilizerType) -> (r: u32)
        ensures
            r == adjusted_time(*self, fertilizer),
    {
        let base_time = self.base_growth_time();
        let percent: u32 = match fertilizer {
            FertilizerType::Unfertilized => 100,
            FertilizerType::Basic => 80,
            FertilizerType::Premium => 65,
            FertilizerType::Super => 50,
        };
        base_time * percent / 100
    }

    /// Position of this kind in per-kind tables.
    pub fn index(&self) -> (r: usize)
        ensures
            r == crop_index(*self),
            r < CROP_KINDS,
    {
        match self {
            CropType::Wheat => 0,
            CropType::PremiumWheat => 1,
            CropType::GoldenWheat => 2,
            CropType::Corn => 3,
            CropType::PremiumCorn => 4,
            CropType::GoldenCorn => 5,
            CropType::Carrot => 6,
            CropType::PremiumCarrot => 7,
            CropType::GoldenCarrot => 8,
        }
    }

    /// The kind at a position of per-kind tables.
    pub fn from_index(i: usize) -> (r: Option<CropType>)
        ensures
            r == (if i < CROP_KINDS { Some(crop_at_index(i as nat)) } else { None::<CropType> }),
    {
        if i == 0 {
            Some(CropType::Wheat)
        } else if i == 1 {
            Some(CropType::PremiumWheat)
        } else if i == 2 {
            Some(CropType::GoldenWheat)
        } else if i == 3 {
            Some(CropType::Corn)
        } else if i == 4 {
            Some(CropType::PremiumCorn)
        } else if i == 5 {
            Some(CropType::GoldenCorn)
        } else if i == 6 {
            Some(CropType::Carrot)
        } else if i == 7 {
            Some(CropType::PremiumCarrot)
        } else if i == 8 {
            Some(CropType::GoldenCarrot)
        } else {
            None
        }
    }

    /// The textual key of this kind.
    pub fn key(&self) -> (r: &'static str)
        ensures
            r@ == crop_key(*self),
    {
        match self {
            CropType::Wheat => "wheat",
            CropType::PremiumWheat => "premium_wheat",
            CropType::GoldenWheat => "golden_wheat",
            CropType::Corn => "corn",
            CropType::PremiumCorn => "premium_corn",
            CropType::GoldenCorn => "golden_corn",
            CropType::Carrot => "carrot",
            CropType::PremiumCarrot => "premium_carrot",
            CropType::GoldenCarrot => "golden_carrot",
        }
    }

    /// The kind whose key is `s`; unknown keys are rejected.
    pub fn from_key(s: &str) -> (r: Option<CropType>)
        ensures
            r == crop_of_key(s@),
    {
        if same_text(s, "wheat") {
            Some(CropType::Wheat)
        } else if same_text(s, "premium_wheat") {
            Some(CropType::PremiumWheat)
        } else if same_text(s, "golden_wheat") {
            Some(CropType::GoldenWheat)
        } else if same_text(s, "corn") {
            Some(CropType::Corn)
        } else if same_text(s, "premium_corn") {
            Some(CropType::PremiumCorn)
        } else if same_text(s, "golden_corn") {
            Some(CropType::GoldenCorn)
        } else if same_text(s, "carrot") {
            Some(CropType::Carrot)
        } else if same_text(s, "premium_carrot") {
            Some(CropType::PremiumCarrot)
        } else if same_text(s, "golden_carrot") {
            Some(CropType::GoldenCarrot)
        } else {
            None
        }
    }
}

impl FertilizerType {
    /// The fertilizer named by `s`; unknown text names no fertilizer.
    pub fn from_string(s: &str) -> (r: Self)
        ensures
            r == fertilizer_of_key(s@),
    {
        if same_text(s, "basic_fertilizer") {
            FertilizerType::Basic
        } else if same_text(s, "premium_fertilizer") {
            FertilizerType::Premium
        } else if same_text(s, "super_fertilizer") {
            FertilizerType::Super
        } else {
            FertilizerType::Unfertilized
        }
    }

    /// Position of this kind in per-kind tables.
    pub fn index(&self) -> (r: usize)
        ensures
            r == fertilizer_index(*self),
            r < FERTILIZER_KINDS,
    {
        match self {
            FertilizerType::Unfertilized => 0,
            FertilizerType::Basic => 1,
            FertilizerType::Premium => 2,
            FertilizerType::Super => 3,
        }
    }
}

/// Lifecycle state of one tile.
#[derive(Clone, Copy, PartialEq, Eq, Structural, Debug)]
pub enum TileState {
    Empty,
    Planted { crop: CropType, timer: u32, fertilizer: FertilizerType },
    Mature { crop: CropType },
    Infested { crop: CropType },
}

/// One grid cell: its lifecycle state and whether it has been unlocked.
#[derive(Clone, Copy, PartialEq, Eq, Structural, Debug)]
pub struct Tile {
    pub state: TileState,
    pub unlocked: bool,
}

/// A growing crop has not yet used up its base growth duration.
pub open spec fn state_wf(s: TileState) -> bool {
    match s {
        TileState::Planted { crop, timer, .. } => timer < base_time(crop),
        _ => true,
    }
}

/// A freshly planted (or freshly sprayed) crop.
pub open spec fn sprouted(crop: CropType) -> TileState {
    TileState::Planted { crop, timer: 0, fertilizer: FertilizerType::Unfertilized }
}

/// The state after one tick; `pest` tells whether the infestation roll fired.
/// Infestation supersedes growth; mature, infested and empty tiles are inert.
pub open spec fn state_after_tick(s: TileState, pest: bool) -> TileState {
    match s {
        TileState::Planted { crop, timer, fertilizer } => {
            if pest {
                TileState::Infested { crop }
            } else if timer + 1 >= adjusted_time(crop, fertilizer) {
                TileState::Mature { crop }
            } else {
                TileState::Planted { crop, timer: (timer + 1) as u32, fertilizer }
            }
        },
        _ => s,
    }
}

/// The state after applying a fertilizer, where that is allowed.
pub open spec fn fertilized(s: TileState, f: FertilizerType) -> TileState {
    match s {
        TileState::Planted { crop, timer, .. } => TileState::Planted { crop, timer, fertilizer: f },
        _ => s,
    }
}

/// A tile accepts fertilizer only while planted and not yet fertilized.
pub open spec fn accepts_fertilizer(s: TileState) -> bool {
    s matches TileState::Planted { fertilizer: FertilizerType::Unfertilized, .. }
}

/// Read-only description of a tile, for display.
#[derive(Clone, Copy, PartialEq, Eq, Structural, Debug)]
pub struct TileInfo {
    pub state: TileState,
    /// Growth progress in percent, at most 100.
    pub progress_percent: u32,
    /// Ticks left until maturity.
    pub remaining_time: u32,
    /// Total growth duration under the current fertilizer.
    pub total_time: u32,
    /// What the crop sells for once harvested.
    pub expected_profit: u32,
}

/// The description of a tile in state `s`.
pub open spec fn info_of(s: TileState) -> TileInfo {
    match s {
        TileState::Empty => TileInfo {
            state: s,
            progress_percent: 0,
            remaining_time: 0,
            total_time: 0,
            expected_profit: 0,
        },
        TileState::Planted { crop, timer, fertilizer } => {
            let total = adjusted_time(crop, fertilizer);
            let pct = (timer * 100) as nat / total;
            TileInfo {
                state: s,
                progress_percent: if pct > 100 { 100 } else { pct as u32 },
                remaining_time: if timer >= total { 0 } else { (total - timer) as u32 },
                total_time: total as u32,
                expected_profit: crop_price(crop) as u32,
            }
        },
        TileState::Mature { crop } => TileInfo {
            state: s,
            progress_percent: 100,
            remaining_time: 0,
            total_time: base_time(crop) as u32,
            expected_profit: crop_price(crop) as u32,
        },
        TileState::Infested { crop } => TileInfo {
            state: s,
            progress_percent: 0,
            remaining_time: base_time(crop) as u32,
            total_time: base_time(crop) as u32,
            expected_profit: crop_price(crop) as u32,
        },
    }
}

impl TileState {
    /// The state after one tick, given whether the infestation roll fired.
    pub fn after_tick(self, pest: bool) -> (r: TileState)
        requires
            state_wf(self),
        ensures
            r == state_after_tick(self, pest),
            state_wf(r),
    {
        match self {
            TileState::Planted { crop, timer, fertilizer } => {
                if pest {
                    TileState::Infested { crop }
                } else {
                    let next = timer + 1;
                    if next >= crop.growth_time_with_fertilizer(fertilizer) {
                        TileState::Mature { crop }
                    } else {
                        TileState::Planted { crop, timer: next, fertilizer }
                    }
                }
            },
            _ => self,
        }
    }
}

impl Tile {
    pub open spec fn wf(&self) -> bool {
        state_wf(self.state)
    }

    /// An empty, locked tile.
    pub fn new() -> (r: Self)
        ensures
            r == (Tile { state: TileState::Empty, unlocked: false }),
    {
        Tile { state: TileState::Empty, unlocked: false }
    }

    pub fn can_plant(&self) -> (r: bool)
        ensures
            r == (self.state == TileState::Empty),
    {
        matches!(self.state, TileState::Empty)
    }

    pub fn can_harvest(&self) -> (r: bool)
        ensures
            r == (self.state is Mature),
    {
        matches!(self.state, TileState::Mature { .. })
    }

    pub fn can_fertilize(&self) -> (r: bool)
        ensures
            r == accepts_fertilizer(self.state),
    {
        matches!(self.state, TileState::Planted { fertilizer: FertilizerType::Unfertilized, .. })
    }

    /// Applies a fertilizer to a planted, unfertilized tile; the growth timer
    /// is kept. Any other tile is left as it is.
    pub fn apply_fertilizer(&mut self, fertilizer: FertilizerType) -> (r: bool)
        ensures
            r == accepts_fertilizer(old(self).state),
            r ==> *final(self) == (Tile {
                state: fertilized(old(self).state, fertilizer),
                unlocked: old(self).unlocked,
            }),
            !r ==> *final(self) == *old(self),
    {
        match self.state {
            TileState::Planted { crop, timer, fertilizer: FertilizerType::Unfertilized } => {
                self.state = TileState::Planted { crop, timer, fertilizer };
                true
            },
            _ => false,
        }
    }

    /// Progress, remaining time and expected profit of this tile.
    pub fn get_tile_info(&self) -> (r: TileInfo)
        requires
            self.wf(),
        ensures
            r == info_of(self.state),
    {
        match self.state {
            TileState::Empty => TileInfo {
                state: self.state,
                progress_percent: 0,
                remaining_time: 0,
                total_time: 0,
                expected_profit: 0,
            },
            TileState::Planted { crop, timer, fertilizer } => {
                let total = crop.growth_time_with_fertilizer(fertilizer);
                let pct = timer * 100 / total;
                TileInfo {
                    state: self.state,
                    progress_percent: if pct > 100 { 100 } else { pct },
                    remaining_time: if timer >= total { 0 } else { total - timer },
                    total_time: total,
                    expected_profit: crop.sell_price(),
                }
            },
            TileState::Mature { crop } => TileInfo {
                state: self.state,
                progress_percent: 100,
                remaining_time: 0,
                total_time: crop.base_growth_time(),
                expected_profit: crop.sell_price(),
            },
            TileState::Infested { crop } => TileInfo {
                state: self.state,
                progress_percent: 0,
                remaining_time: crop.base_growth_time(),
                total_time: crop.base_growth_time(),
                expected_profit: crop.sell_price(),
            },
        }
    }
}

/// A tick moves a growing crop forward by one: it stays planted while the
/// advanced timer is below the adjusted growth time, and matures once it
/// reaches it, unless the infestation roll fired.
pub proof fn tick_growth_law(crop: CropType, timer: u32, fertilizer: FertilizerType)
    requires
        state_wf(TileState::Planted { crop, timer, fertilizer }),
    ensures
        timer + 1 < adjusted_time(crop, fertilizer) ==> state_after_tick(
            TileState::Planted { crop, timer, fertilizer },
            false,
        ) == (TileState::Planted { crop, timer: (timer + 1) as u32, fertilizer }),
        timer + 1 >= adjusted_time(crop, fertilizer) ==> state_after_tick(
            TileState::Planted { crop, timer, fertilizer },
            false,
        ) == (TileState::Mature { crop }),
        state_after_tick(TileState::Planted { crop, timer, fertilizer }, true)
            == (TileState::Infested { crop }),
{
}

/// Fertilizer never lengthens growth: for every crop and fertilizer the
/// adjusted growth time is at most the unfertilized one.
pub proof fn fertilizer_monotone_law(crop: CropType, f: FertilizerType)
    ensures
        adjusted_time(crop, f) <= adjusted_time(crop, FertilizerType::Unfertilized),
        adjusted_time(crop, FertilizerType::Unfertilized) == base_time(crop),
{
}

/// An infested tile is frozen: ticks neither advance it nor mature it.
pub proof fn infested_frozen_law(crop: CropType, pest: bool)
    ensures
        state_after_tick(TileState::Infested { crop }, pest) == (TileState::Infested { crop }),
{
}

} // verus!
