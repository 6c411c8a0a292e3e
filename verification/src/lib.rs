//! Decision core of a stake-pool rebalancing bot.

pub mod address;
pub mod candidate;
pub mod chain;
pub mod config;
pub mod decision;
pub mod engine;
pub mod epoch;
pub mod evaluation;
pub mod reserve;
pub mod scheduler;
pub mod startup;
