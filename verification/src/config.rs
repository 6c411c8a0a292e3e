//! Configuration: the file's fields as they are written, and the settings
//! that the loop runs on once the addresses in them have been validated.

use crate::address::Address;
use vstd::prelude::*;

verus! {

/// The configuration file's content, field by field.
#[derive(Clone, Debug, PartialEq, Eq)]
pub struct BotConf {
    /// Path of the ledger client's own settings: endpoint and key material.
    pub solana_config_path: String,
    /// Address of the pool to manage, as base-58 text.
    pub stake_pool_address: String,
    /// Number of remaining slots below which rebalancing is permitted.
    pub rebalance_left_epoch: u64,
    /// Vote accounts of the preferred validators, in priority order.
    pub preferred_vote_account: Vec<String>,
    /// Compute actions without submitting them.
    pub dry_run: bool,
    /// Seconds to sleep between iterations.
    pub loop_second: u64,
    /// Skip the rebalance evaluation; the pool is still refreshed.
    pub disable_rebalance: bool,
}

/// What the loop runs on; fixed at startup.
#[derive(Clone, Debug, PartialEq, Eq)]
pub struct Settings {
    pub pool_address: Address,
    pub left_epoch_threshold: u64,
    /// The preferred validators' vote accounts, in priority order.
    pub preferred_validators: Vec<Address>,
    pub dry_run: bool,
    pub loop_interval_seconds: u64,
    pub disable_rebalance: bool,
    /// The safety buffer that stays in the reserve, in native units.
    pub min_stake_balance: u64,
}

} // verus!
