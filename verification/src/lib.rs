//! Verified core of a medieval market simulation: the goods and their
//! production recipes, the price-time priority order book, the routing of
//! orders to per-good books, and the discrete planning decisions that agents
//! make before prices and quantities are worked out.

pub mod config;
pub mod market;
pub mod order;
pub mod orderbook;
pub mod planning;
pub mod population;
pub mod recipe;
pub mod resource;
pub mod role;
pub mod stats;
