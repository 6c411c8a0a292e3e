//! What the decision core asks of the ledger and what it is told, with a
//! mathematical model of the ledger's state to state laws against.

use crate::address::Address;
use vstd::prelude::*;

verus! {

/// The pool's accounts that the core reads.
#[derive(Clone, Copy, Debug, PartialEq, Eq)]
pub struct PoolState {
    pub reserve_account_address: Address,
    pub validator_list_address: Address,
}

/// The pool's holding account for funds not yet assigned to a validator.
#[derive(Clone, Copy, Debug, PartialEq, Eq)]
pub struct ReserveAccount {
    /// Balance in native units.
    pub balance: u64,
}

/// How far the ledger is into the current epoch.
#[derive(Clone, Copy, Debug, PartialEq, Eq)]
pub struct EpochProgress {
    pub slot_index: u64,
    pub slots_in_epoch: u64,
}

/// The kinds of read-only query.
#[derive(Clone, Copy, Debug, PartialEq, Eq)]
pub enum QueryKind {
    EpochProgress,
    PoolState,
    ReserveBalance,
    RentExemptMinimum,
    /// The balance of a validator's transient account. Deriving the
    /// account's address is part of this query.
    TransientBalance,
}

/// A read-only query against the ledger.
#[derive(Clone, Copy, Debug, PartialEq, Eq)]
pub enum Query {
    /// Current slot index and number of slots in the epoch.
    EpochProgress,
    /// The accounts of the pool at this address.
    PoolState { pool_address: Address },
    /// The balance of the pool's reserve account.
    ReserveBalance { address: Address },
    /// The minimum balance that keeps a stake account on the ledger.
    RentExemptMinimum,
    /// The balance of a transient stake account, if the account exists.
    TransientBalance { address: Address },
}

impl Query {
    /// The kind of this query.
    pub open spec fn kind_of(self) -> QueryKind {
        match self {
            Query::EpochProgress => QueryKind::EpochProgress,
            Query::PoolState { .. } => QueryKind::PoolState,
            Query::ReserveBalance { .. } => QueryKind::ReserveBalance,
            Query::RentExemptMinimum => QueryKind::RentExemptMinimum,
            Query::TransientBalance { .. } => QueryKind::TransientBalance,
        }
    }

    /// The kind of this query.
    pub fn kind(&self) -> (k: QueryKind)
        ensures
            k == self.kind_of(),
    {
        match self {
            Query::EpochProgress => QueryKind::EpochProgress,
            Query::PoolState { .. } => QueryKind::PoolState,
            Query::ReserveBalance { .. } => QueryKind::ReserveBalance,
            Query::RentExemptMinimum => QueryKind::RentExemptMinimum,
            Query::TransientBalance { .. } => QueryKind::TransientBalance,
        }
    }
}

/// The answer to a query.
#[derive(Clone, Copy, Debug, PartialEq, Eq)]
pub enum Reply {
    EpochProgress { progress: EpochProgress },
    PoolState { state: PoolState },
    ReserveBalance { account: ReserveAccount },
    RentExemptMinimum { minimum: u64 },
    /// `None` where the transient account does not exist.
    TransientBalance { balance: Option<u64> },
    /// The query could not be answered.
    Failed,
}

/// The ledger's state as far as the core reads it. `None` and a missing key
/// stand for what cannot be read or does not exist.
pub struct Ledger {
    pub epoch: Option<EpochProgress>,
    pub pools: Map<Seq<u8>, PoolState>,
    pub balances: Map<Seq<u8>, u64>,
    pub rent_exempt_minimum: Option<u64>,
}

impl Ledger {
    /// The balance of the account at `address`, if the account exists.
    pub open spec fn balance_of(self, address: Address) -> Option<u64> {
        if self.balances.contains_key(address@) {
            Some(self.balances[address@])
        } else {
            None
        }
    }

    /// The pool at `address`, if there is one.
    pub open spec fn pool_at(self, address: Address) -> Option<PoolState> {
        if self.pools.contains_key(address@) {
            Some(self.pools[address@])
        } else {
            None
        }
    }

    /// What a reader of this ledger answers to `query`.
    pub open spec fn answer(self, query: Query) -> Reply {
        match query {
            Query::EpochProgress => match self.epoch {
                Some(progress) => Reply::EpochProgress { progress },
                None => Reply::Failed,
            },
            Query::PoolState { pool_address } => match self.pool_at(pool_address) {
                Some(state) => Reply::PoolState { state },
                None => Reply::Failed,
            },
            Query::ReserveBalance { address } => match self.balance_of(address) {
                Some(balance) => Reply::ReserveBalance { account: ReserveAccount { balance } },
                None => Reply::Failed,
            },
            Query::RentExemptMinimum => match self.rent_exempt_minimum {
                Some(minimum) => Reply::RentExemptMinimum { minimum },
                None => Reply::Failed,
            },
            Query::TransientBalance { address } => Reply::TransientBalance {
                balance: self.balance_of(address),
            },
        }
    }
}

} // verus!
