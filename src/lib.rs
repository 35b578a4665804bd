//! A farm-simulation engine: a grid of tiles that cycle through planting,
//! growth, maturity and harvest, with an inventory, a shop ledger and a
//! small quest tracker around it.
pub mod tile;
pub mod text;
pub mod inventory;
pub mod shop;
pub mod farm;
pub mod task;
pub mod game;
