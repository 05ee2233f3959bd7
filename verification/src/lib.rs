//! An assistant for the options wheel strategy: ranking of the next trades,
//! guarding of the orders, and the bookkeeping in between.

pub mod config;
pub mod curve_laws;
pub mod data;
pub mod dates;
pub mod decimal;
pub mod desktop;
pub mod engine;
pub mod fixed;
pub mod ibkr;
pub mod lists;
pub mod live;
pub mod market_laws;
pub mod number_laws;
pub mod position_laws;
pub mod positions;
pub mod probe;
pub mod setup_laws;
pub mod store;
pub mod text;
pub mod tui;
