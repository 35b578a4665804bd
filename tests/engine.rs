use farm_sim::farm::Farm;
use farm_sim::game::{Game, RestoreError};
use farm_sim::inventory::{Inventory, Item};
use farm_sim::shop::Shop;
use farm_sim::task::Task;
use farm_sim::tile::{CropType, FertilizerType, Tile, TileState};

fn planted(crop: CropType, timer: u32) -> TileState {
    TileState::Planted { crop, timer, fertilizer: FertilizerType::Unfertilized }
}

#[test]
fn wheat_lifecycle_scenario() {
    let mut g = Game::new();
    assert_eq!(g.farm.rows, 10);
    assert_eq!(g.farm.cols, 10);
    assert_eq!(g.get_balance(), 100);
    assert!(g.buy_seed(CropType::Wheat));
    assert_eq!(g.get_balance(), 90);
    assert_eq!(g.farm.inventory.get_count(Item::Seed(CropType::Wheat)), 1);
    assert!(g.plant(0, 0, CropType::Wheat));
    assert_eq!(g.get_state(0, 0), Some(planted(CropType::Wheat, 0)));
    assert_eq!(g.farm.inventory.get_count(Item::Seed(CropType::Wheat)), 0);
    let ticks = CropType::Wheat.base_growth_time();
    for _ in 0..ticks - 1 {
        g.farm.tick_without_infestation();
    }
    assert_eq!(g.get_state(0, 0), Some(planted(CropType::Wheat, ticks - 1)));
    g.farm.tick_without_infestation();
    assert_eq!(g.get_state(0, 0), Some(TileState::Mature { crop: CropType::Wheat }));
    assert!(g.harvest(0, 0));
    assert_eq!(g.get_state(0, 0), Some(TileState::Empty));
    assert_eq!(g.farm.inventory.get_count(Item::Crop(CropType::Wheat)), 1);
    assert!(g.sell_crop(CropType::Wheat));
    assert_eq!(g.get_balance(), 105);
    assert_eq!(g.farm.inventory.get_count(Item::Crop(CropType::Wheat)), 0);
}

#[test]
fn plant_on_locked_tile_changes_nothing() {
    let mut g = Game::new();
    assert!(g.buy_seed(CropType::Corn));
    let before_inventory = g.get_full_inventory();
    let before_grid = g.farm.grid.clone();
    assert!(!g.farm.grid[99].unlocked);
    assert!(!g.plant(9, 9, CropType::Corn));
    assert_eq!(g.get_full_inventory(), before_inventory);
    assert_eq!(g.farm.grid, before_grid);
    assert_eq!(g.get_tasks()[1].progress, 0);
}

#[test]
fn infested_tile_is_frozen_until_sprayed() {
    let mut g = Game::new();
    assert!(g.buy_seed(CropType::Wheat));
    assert!(g.plant(0, 0, CropType::Wheat));
    g.farm.tick_without_infestation();
    g.farm.tick_without_infestation();
    assert_eq!(g.get_state(0, 0), Some(planted(CropType::Wheat, 2)));
    let mut rolls = vec![99u32; 100];
    rolls[0] = 0;
    g.farm.tick_with_rolls(&rolls);
    assert_eq!(g.get_state(0, 0), Some(TileState::Infested { crop: CropType::Wheat }));
    for _ in 0..30 {
        g.farm.tick_without_infestation();
        g.farm.tick_with_rolls(&rolls);
    }
    assert_eq!(g.get_state(0, 0), Some(TileState::Infested { crop: CropType::Wheat }));
    assert!(!g.spray_tile(0, 0));
    assert!(g.buy_pesticide());
    assert_eq!(g.get_balance(), 100 - 10 - 20);
    assert!(g.spray_tile(0, 0));
    assert_eq!(g.get_state(0, 0), Some(planted(CropType::Wheat, 0)));
    assert_eq!(g.farm.inventory.get_count(Item::Pesticide), 0);
    g.farm.tick_without_infestation();
    assert_eq!(g.get_state(0, 0), Some(planted(CropType::Wheat, 1)));
    assert!(!g.spray_tile(0, 0));
}

#[test]
fn tick_grows_until_adjusted_time() {
    let s = planted(CropType::Carrot, 10);
    assert_eq!(s.after_tick(false), planted(CropType::Carrot, 11));
    assert_eq!(
        planted(CropType::Carrot, 11).after_tick(false),
        TileState::Mature { crop: CropType::Carrot }
    );
    assert_eq!(s.after_tick(true), TileState::Infested { crop: CropType::Carrot });
    let fertilized = TileState::Planted {
        crop: CropType::Carrot,
        timer: 7,
        fertilizer: FertilizerType::Super,
    };
    assert_eq!(fertilized.after_tick(false), TileState::Mature { crop: CropType::Carrot });
    assert_eq!(TileState::Empty.after_tick(true), TileState::Empty);
    let mature = TileState::Mature { crop: CropType::Corn };
    assert_eq!(mature.after_tick(true), mature);
}

#[test]
fn fertilizer_never_lengthens_growth() {
    let crops = [
        CropType::Wheat,
        CropType::PremiumWheat,
        CropType::GoldenWheat,
        CropType::Corn,
        CropType::PremiumCorn,
        CropType::GoldenCorn,
        CropType::Carrot,
        CropType::PremiumCarrot,
        CropType::GoldenCarrot,
    ];
    let fertilizers = [
        FertilizerType::Unfertilized,
        FertilizerType::Basic,
        FertilizerType::Premium,
        FertilizerType::Super,
    ];
    for c in crops {
        assert_eq!(c.growth_time_with_fertilizer(FertilizerType::Unfertilized), c.base_growth_time());
        for f in fertilizers {
            assert!(c.growth_time_with_fertilizer(f) <= c.base_growth_time());
        }
    }
    assert_eq!(CropType::Wheat.growth_time_with_fertilizer(FertilizerType::Basic), 8);
    assert_eq!(CropType::PremiumWheat.growth_time_with_fertilizer(FertilizerType::Basic), 11);
    assert_eq!(CropType::PremiumWheat.growth_time_with_fertilizer(FertilizerType::Premium), 9);
    assert_eq!(CropType::GoldenWheat.growth_time_with_fertilizer(FertilizerType::Premium), 13);
    assert_eq!(CropType::GoldenCorn.growth_time_with_fertilizer(FertilizerType::Super), 14);
}

#[test]
fn removing_more_than_held_fails() {
    let mut inv = Inventory::new();
    assert!(inv.add(Item::Seed(CropType::Corn), 2));
    assert!(!inv.remove(Item::Seed(CropType::Corn), 3));
    assert_eq!(inv.get_count(Item::Seed(CropType::Corn)), 2);
    assert!(inv.remove(Item::Seed(CropType::Corn), 2));
    assert_eq!(inv.get_count(Item::Seed(CropType::Corn)), 0);
    assert!(!inv.remove_seed(CropType::Corn));
    assert_eq!(inv.get_count(Item::Seed(CropType::Corn)), 0);
    assert!(inv.add_crop(CropType::Carrot));
    assert!(inv.add_fertilizer(FertilizerType::Basic));
    assert!(inv.remove_crop(CropType::Carrot));
    assert!(inv.remove_fertilizer(FertilizerType::Basic));
    assert!(!inv.remove_fertilizer(FertilizerType::Basic));
}

#[test]
fn adding_past_the_maximum_fails() {
    let mut inv = Inventory::new();
    assert!(inv.add(Item::Crop(CropType::Wheat), u32::MAX));
    assert!(!inv.add_crop(CropType::Wheat));
    assert_eq!(inv.get_count(Item::Crop(CropType::Wheat)), u32::MAX);
    assert_eq!(inv.get_count(Item::Crop(CropType::Corn)), 0);
}

#[test]
fn buy_seed_is_zero_sum() {
    let mut g = Game::new();
    for _ in 0..10 {
        let before = g.get_balance();
        assert!(g.buy_seed(CropType::Wheat));
        assert_eq!(g.get_balance(), before - 10);
    }
    assert_eq!(g.get_balance(), 0);
    assert!(!g.buy_seed(CropType::Wheat));
    assert_eq!(g.get_balance(), 0);
    assert_eq!(g.farm.inventory.get_count(Item::Seed(CropType::Wheat)), 10);
}

#[test]
fn shop_prices_and_purchases() {
    let mut shop = Shop::new();
    assert_eq!(shop.get_balance(), 100);
    assert_eq!(shop.get_seed_price("golden_corn"), Some(60));
    assert_eq!(shop.get_crop_price("wheat"), Some(15));
    assert_eq!(shop.get_crop_price("golden_carrot"), Some(60));
    assert_eq!(shop.get_crop_price("potato"), None);
    assert_eq!(shop.get_fertilizer_price("basic_fertilizer"), Some(25));
    assert_eq!(shop.get_fertilizer_price("super_fertilizer"), Some(80));
    assert_eq!(shop.get_fertilizer_price("water"), None);
    assert!(shop.buy_fertilizer(FertilizerType::Premium));
    assert_eq!(shop.get_balance(), 50);
    assert!(!shop.buy_fertilizer(FertilizerType::Super));
    assert!(!shop.buy_fertilizer(FertilizerType::Unfertilized));
    assert_eq!(shop.get_balance(), 50);
    assert!(shop.buy_seed(CropType::Corn));
    assert_eq!(shop.get_balance(), 30);
    assert!(shop.sell_crop(CropType::GoldenCorn));
    assert_eq!(shop.get_balance(), 100);
    let mut rich = Shop { balance: u32::MAX - 5 };
    assert!(!rich.sell_crop(CropType::Wheat));
    assert_eq!(rich.get_balance(), u32::MAX - 5);
}

#[test]
fn task_progress_is_capped_and_claimed_once() {
    let mut g = Game::new();
    for _ in 0..10 {
        assert!(g.buy_seed(CropType::Wheat));
    }
    let mut planted_count = 0u32;
    for r in 0..4usize {
        for c in 0..4usize {
            if planted_count < 10 {
                assert!(!g.claim_task_reward(1));
                assert!(g.plant(r, c, CropType::Wheat));
                planted_count += 1;
                assert_eq!(g.get_tasks()[0].progress, planted_count);
            }
        }
    }
    let t = g.get_tasks()[0];
    assert!(t.completed);
    assert!(!t.claimed);
    assert_eq!(g.get_tasks()[1].progress, 0);
    assert!(g.claim_task_reward(1));
    assert_eq!(g.get_balance(), 30);
    assert!(g.get_tasks()[0].claimed);
    assert!(!g.claim_task_reward(1));
    assert_eq!(g.get_balance(), 30);
    assert!(!g.claim_task_reward(42));
    assert!(g.buy_seed(CropType::Wheat));
    assert!(g.plant(3, 3, CropType::Wheat));
    assert_eq!(g.get_tasks()[0].progress, 10);
}

#[test]
fn task_record_planting() {
    let mut t = Task::new(7, CropType::Corn, 2, 5);
    t.on_planted(CropType::Wheat);
    assert_eq!(t.progress, 0);
    t.on_planted(CropType::Corn);
    assert_eq!(t.progress, 1);
    assert!(!t.completed);
    t.on_planted(CropType::Corn);
    assert_eq!(t.progress, 2);
    assert!(t.completed);
    t.on_planted(CropType::Corn);
    assert_eq!(t.progress, 2);
}

#[test]
fn snapshot_restore_round_trip() {
    let mut g = Game::new();
    assert!(g.buy_seed(CropType::Carrot));
    assert!(g.buy_seed(CropType::Carrot));
    assert!(g.buy_fertilizer(FertilizerType::Basic));
    assert!(g.plant(1, 2, CropType::Carrot));
    assert!(g.fertilize(1, 2, FertilizerType::Basic));
    g.farm.tick_without_infestation();
    let snap = g.snapshot();
    let mut other = Game::new();
    assert_eq!(other.restore(snap), Ok(()));
    assert_eq!(other.farm.grid, g.farm.grid);
    assert_eq!(other.get_full_inventory(), g.get_full_inventory());
    assert_eq!(other.get_balance(), g.get_balance());
    assert_eq!(other.get_tasks(), g.get_tasks());
    for r in 0..10 {
        for c in 0..10 {
            assert_eq!(other.get_crop_info(r, c), g.get_crop_info(r, c));
        }
    }
    other.farm.tick_without_infestation();
    g.farm.tick_without_infestation();
    assert_eq!(other.farm.grid, g.farm.grid);
}

#[test]
fn restore_refuses_mismatched_or_broken_states() {
    let g = Game::new();
    let mut small = Game::new();
    small.farm = Farm::new(5, 5);
    let before = small.farm.grid.clone();
    assert_eq!(small.restore(g.snapshot()), Err(RestoreError::GridMismatch));
    assert_eq!(small.farm.grid, before);

    let mut target = Game::new();
    let mut snap = g.snapshot();
    snap.inventory_tools = vec![];
    assert_eq!(target.restore(snap), Err(RestoreError::InventoryMismatch));

    let mut snap = g.snapshot();
    snap.grid[3] = Tile { state: planted(CropType::Wheat, 10), unlocked: true };
    assert_eq!(target.restore(snap), Err(RestoreError::InvalidTile));

    let mut snap = g.snapshot();
    snap.tasks[0].claimed = true;
    assert_eq!(target.restore(snap), Err(RestoreError::InvalidTask));
    assert_eq!(target.get_tasks(), g.get_tasks());
}

#[test]
fn fertilize_shortens_growth() {
    let mut g = Game::new();
    assert!(g.buy_seed(CropType::Wheat));
    assert!(g.plant(0, 1, CropType::Wheat));
    assert!(!g.fertilize(0, 1, FertilizerType::Basic));
    assert!(g.buy_fertilizer(FertilizerType::Basic));
    assert_eq!(g.get_balance(), 65);
    assert!(!g.fertilize(0, 1, FertilizerType::Unfertilized));
    assert!(g.fertilize(0, 1, FertilizerType::Basic));
    assert_eq!(
        g.get_state(0, 1),
        Some(TileState::Planted { crop: CropType::Wheat, timer: 0, fertilizer: FertilizerType::Basic })
    );
    assert!(g.buy_fertilizer(FertilizerType::Basic));
    assert!(!g.fertilize(0, 1, FertilizerType::Basic));
    for _ in 0..7 {
        g.farm.tick_without_infestation();
    }
    assert!(matches!(g.get_state(0, 1), Some(TileState::Planted { timer: 7, .. })));
    g.farm.tick_without_infestation();
    assert_eq!(g.get_state(0, 1), Some(TileState::Mature { crop: CropType::Wheat }));
}

#[test]
fn unlock_then_plant() {
    let mut g = Game::new();
    assert!(g.buy_seed(CropType::Wheat));
    assert!(!g.plant(5, 5, CropType::Wheat));
    assert!(g.unlock_tile(5, 5));
    assert_eq!(g.get_balance(), 40);
    assert!(!g.unlock_tile(5, 5));
    assert!(!g.unlock_tile(10, 0));
    assert!(g.plant(5, 5, CropType::Wheat));
    assert!(!g.unlock_tile(6, 6));
    assert_eq!(g.get_balance(), 40);
}

#[test]
fn clear_tile_discards_planting() {
    let mut g = Game::new();
    assert!(!g.clear_tile(0, 0));
    assert!(g.buy_seed(CropType::Corn));
    assert!(g.plant(0, 0, CropType::Corn));
    assert!(g.clear_tile(0, 0));
    assert_eq!(g.get_state(0, 0), Some(TileState::Empty));
    assert_eq!(g.farm.inventory.get_count(Item::Seed(CropType::Corn)), 0);
    assert_eq!(g.farm.inventory.get_count(Item::Crop(CropType::Corn)), 0);
    assert!(!g.harvest(0, 0));
}

#[test]
fn bug_protection_clears_and_prevents_infestation() {
    let mut g = Game::new();
    assert!(g.buy_seed(CropType::Corn));
    assert!(g.plant(2, 2, CropType::Corn));
    let mut rolls = vec![99u32; 100];
    rolls[22] = 1;
    g.tick_with_rolls(&rolls);
    assert_eq!(g.get_state(2, 2), Some(TileState::Infested { crop: CropType::Corn }));
    g.apply_bug_protection();
    assert_eq!(g.get_state(2, 2), Some(planted(CropType::Corn, 0)));
    g.tick_with_rolls(&vec![0u32; 100]);
    assert_eq!(g.get_state(2, 2), Some(planted(CropType::Corn, 1)));
    g.farm.tick_with_rolls(&vec![0u32; 100]);
    assert_eq!(g.get_state(2, 2), Some(TileState::Infested { crop: CropType::Corn }));
    g.apply_bug_protection();
    for _ in 0..14 {
        g.tick();
    }
    assert_eq!(g.get_state(2, 2), Some(planted(CropType::Corn, 14)));
    g.tick();
    assert_eq!(g.get_state(2, 2), Some(TileState::Mature { crop: CropType::Corn }));
}

#[test]
fn random_tick_infests_some_tiles() {
    let mut farm = Farm::new(100, 100);
    for t in farm.grid.iter_mut() {
        *t = Tile { state: planted(CropType::GoldenCorn, 0), unlocked: true };
    }
    farm.tick();
    let mut infested = 0;
    for t in farm.grid.iter() {
        match t.state {
            TileState::Infested { crop } => {
                assert_eq!(crop, CropType::GoldenCorn);
                infested += 1;
            }
            s => assert_eq!(s, planted(CropType::GoldenCorn, 1)),
        }
    }
    assert!(infested > 0);
    assert!(infested < 10000);
}

#[test]
fn tile_info_reports_progress() {
    let mut g = Game::new();
    assert!(g.buy_seed(CropType::Carrot));
    assert!(g.plant(0, 3, CropType::Carrot));
    for _ in 0..3 {
        g.farm.tick_without_infestation();
    }
    let info = g.get_crop_info(0, 3).unwrap();
    assert_eq!(info.progress_percent, 25);
    assert_eq!(info.remaining_time, 9);
    assert_eq!(info.total_time, 12);
    assert_eq!(info.expected_profit, 20);
    assert_eq!(g.get_crop_info(0, 4).unwrap().progress_percent, 0);
    assert_eq!(g.get_crop_info(10, 0), None);
    assert_eq!(g.get_state(0, 10), None);
}

#[test]
fn tile_predicates_and_fertilizer() {
    let mut t = Tile::new();
    assert!(!t.unlocked);
    assert!(t.can_plant());
    assert!(!t.can_harvest());
    assert!(!t.can_fertilize());
    assert!(!t.apply_fertilizer(FertilizerType::Basic));
    t.state = planted(CropType::Wheat, 4);
    assert!(t.can_fertilize());
    assert!(t.apply_fertilizer(FertilizerType::Super));
    assert_eq!(
        t.state,
        TileState::Planted { crop: CropType::Wheat, timer: 4, fertilizer: FertilizerType::Super }
    );
    assert!(!t.can_fertilize());
    t.state = TileState::Mature { crop: CropType::Wheat };
    assert!(t.can_harvest());
}

#[test]
fn keys_round_trip() {
    for i in 0..9 {
        let c = CropType::from_index(i).unwrap();
        assert_eq!(c.index(), i);
        assert_eq!(CropType::from_key(c.key()), Some(c));
    }
    assert_eq!(CropType::from_index(9), None);
    assert_eq!(CropType::from_key("premium_corn"), Some(CropType::PremiumCorn));
    assert_eq!(CropType::from_key("Wheat"), None);
    assert_eq!(FertilizerType::from_string("super_fertilizer"), FertilizerType::Super);
    assert_eq!(FertilizerType::from_string("premium_fertilizer"), FertilizerType::Premium);
    assert_eq!(FertilizerType::from_string("nothing"), FertilizerType::Unfertilized);
}

#[test]
fn catalog_texts() {
    assert_eq!(CropType::Wheat.display_name(), "小麦");
    assert_eq!(CropType::GoldenCarrot.display_name(), "金色胡萝卜");
    assert_eq!(CropType::Corn.description(), "高价值作物，生长较慢但收益丰厚");
    assert!(CropType::Carrot.characteristics().starts_with("• 富含维生素"));
    assert!(CropType::PremiumCorn.planting_tips().starts_with("建议"));
    assert_eq!(FertilizerType::Basic.display_name(), "基础肥料");
    assert_eq!(FertilizerType::Super.speed_bonus_text(), "(-50%时间)");
    assert_eq!(FertilizerType::Unfertilized.effect_description(), "");
    assert_eq!(CropType::GoldenCorn.sell_price(), 70);
}

#[test]
fn farm_level_inventory_views() {
    let mut g = Game::new();
    assert!(g.buy_seed(CropType::Corn));
    let (seeds, crops) = g.get_inventory();
    assert_eq!(seeds[3], 1);
    assert_eq!(crops, vec![0u32; 9]);
    let (s2, c2, f2) = g.farm.get_full_inventory();
    assert_eq!(s2, seeds);
    assert_eq!(c2, crops);
    assert_eq!(f2, vec![0u32; 4]);
    let (s3, _) = g.farm.get_inventory();
    assert_eq!(s3, seeds);
    g.reset();
    assert_eq!(g.get_balance(), 100);
    assert_eq!(g.get_inventory().0, vec![0u32; 9]);
}
