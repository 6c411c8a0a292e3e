//! The rebalance decision engine as a sequence of questions and answers.
//!
//! One evaluation reads the ledger several times and decides between the
//! reads. The engine does no reading itself: it says which query it wants
//! answered next, and is handed the reply. An evaluation starts with
//! [`begin`], goes on with [`step`] for as long as that asks, and ends with
//! the one outcome that `step` finishes with. Nothing is kept from one
//! evaluation to the next.

use crate::address::Address;
use crate::candidate::{busy, candidate_of, is_busy, ValidatorCandidate};
use crate::chain::{Query, QueryKind, Reply};
use crate::config::Settings;
use crate::decision::{NoActionReason, RebalanceDecision};
use crate::epoch::EpochWindow;
use crate::reserve::{eligible, eligible_amount};
use vstd::prelude::*;

verus! {

/// How an evaluation ended.
#[derive(Clone, Copy, Debug, PartialEq, Eq)]
pub enum CycleOutcome {
    /// Every read that was needed succeeded.
    Decided { decision: RebalanceDecision },
    /// A read failed; the evaluation was given up.
    Failed { query: QueryKind },
}

/// Where an evaluation stands: which answer it is waiting for, and what it
/// has learnt so far that it still needs.
#[derive(Clone, Copy, Debug, PartialEq, Eq)]
pub enum Pending {
    Epoch,
    Pool,
    Reserve { address: Address },
    Rent { reserve_balance: u64 },
    /// Waiting for the transient balance of the candidate at `index` of the
    /// preferred validators; `amount` is what the reserve can give.
    Transient { amount: u64, index: usize, candidate: ValidatorCandidate },
}

/// What the engine wants next.
#[derive(Clone, Copy, Debug, PartialEq, Eq)]
pub enum Progress {
    /// Have `query` answered and call [`step`] with `pending` and the reply.
    Ask { pending: Pending, query: Query },
    /// The evaluation is over.
    Finish { outcome: CycleOutcome },
}

/// The evaluation ends with a decision.
pub open spec fn decided(decision: RebalanceDecision) -> Progress {
    Progress::Finish { outcome: CycleOutcome::Decided { decision } }
}

/// The evaluation ends without a rebalance.
pub open spec fn no_action(reason: NoActionReason) -> Progress {
    decided(RebalanceDecision::NoAction { reason })
}

/// The evaluation is given up because `query` could not be read.
pub open spec fn failed(query: QueryKind) -> Progress {
    Progress::Finish { outcome: CycleOutcome::Failed { query } }
}

/// The query that an evaluation standing at `pending` is waiting on.
pub open spec fn awaited(settings: Settings, pending: Pending) -> Query {
    match pending {
        Pending::Epoch => Query::EpochProgress,
        Pending::Pool => Query::PoolState { pool_address: settings.pool_address },
        Pending::Reserve { address } => Query::ReserveBalance { address },
        Pending::Rent { .. } => Query::RentExemptMinimum,
        Pending::Transient { candidate, .. } => Query::TransientBalance {
            address: candidate.transient_stake_address,
        },
    }
}

/// Turns to the preferred validator at `index`: asks for its transient
/// balance, or ends the evaluation where the list is exhausted. A validator
/// for which no transient address can be derived has no account to ask for:
/// the evaluation ends as if the read had failed.
pub open spec fn scan_from(settings: Settings, amount: u64, index: int) -> Progress {
    if 0 <= index < settings.preferred_validators@.len() {
        match candidate_of(settings.preferred_validators@[index], settings.pool_address) {
            Some(candidate) => Progress::Ask {
                pending: Pending::Transient { amount, index: index as usize, candidate },
                query: Query::TransientBalance { address: candidate.transient_stake_address },
            },
            None => failed(QueryKind::TransientBalance),
        }
    } else {
        no_action(NoActionReason::AllPreferredBusy)
    }
}

/// The engine's transition: from where the evaluation stands and the reply
/// to the awaited query, to the next query or the outcome.
///
/// A reply of the wrong kind, a failed read, and an epoch reading whose slot
/// index lies beyond the epoch's end all end the evaluation as a failure of
/// the awaited query; so does a validator without a transient address, as a
/// failure to read its transient balance. A transient account that does not
/// exist, or holds nothing, leaves its validator free.
pub open spec fn next(settings: Settings, pending: Pending, reply: Reply) -> Progress {
    match pending {
        Pending::Epoch => match reply {
            Reply::EpochProgress { progress } => {
                let window = EpochWindow {
                    current_slot_index: progress.slot_index,
                    slots_in_epoch: progress.slots_in_epoch,
                    left_epoch_threshold: settings.left_epoch_threshold,
                };
                if !window.well_formed() {
                    failed(QueryKind::EpochProgress)
                } else if !window.within_window() {
                    no_action(NoActionReason::WindowNotReached)
                } else {
                    Progress::Ask {
                        pending: Pending::Pool,
                        query: Query::PoolState { pool_address: settings.pool_address },
                    }
                }
            },
            _ => failed(QueryKind::EpochProgress),
        },
        Pending::Pool => match reply {
            Reply::PoolState { state } => Progress::Ask {
                pending: Pending::Reserve { address: state.reserve_account_address },
                query: Query::ReserveBalance { address: state.reserve_account_address },
            },
            _ => failed(QueryKind::PoolState),
        },
        Pending::Reserve { .. } => match reply {
            Reply::ReserveBalance { account } => Progress::Ask {
                pending: Pending::Rent { reserve_balance: account.balance },
                query: Query::RentExemptMinimum,
            },
            _ => failed(QueryKind::ReserveBalance),
        },
        Pending::Rent { reserve_balance } => match reply {
            Reply::RentExemptMinimum { minimum } => match eligible(
                reserve_balance,
                minimum,
                settings.min_stake_balance,
            ) {
                None => no_action(NoActionReason::InsufficientReserve),
                Some(amount) => scan_from(settings, amount, 0),
            },
            _ => failed(QueryKind::RentExemptMinimum),
        },
        Pending::Transient { amount, index, candidate } => match reply {
            Reply::TransientBalance { balance } => if is_busy(balance) {
                scan_from(settings, amount, index + 1)
            } else {
                decided(RebalanceDecision::Increase { target_validator: candidate, amount })
            },
            _ => failed(QueryKind::TransientBalance),
        },
    }
}

/// Starts an evaluation: the first thing to learn is the epoch's progress.
pub fn begin() -> (p: Progress)
    ensures
        p == (Progress::Ask { pending: Pending::Epoch, query: Query::EpochProgress }),
{
    Progress::Ask { pending: Pending::Epoch, query: Query::EpochProgress }
}

/// Turns to the preferred validator at `index`, deriving its transient
/// address on the way.
fn scan(settings: &Settings, amount: u64, index: usize) -> (p: Progress)
    ensures
        p == scan_from(*settings, amount, index as int),
{
    if index < settings.preferred_validators.len() {
        match ValidatorCandidate::derive(settings.preferred_validators[index], &settings.pool_address) {
            Some(candidate) => Progress::Ask {
                pending: Pending::Transient { amount, index, candidate },
                query: Query::TransientBalance { address: candidate.transient_stake_address },
            },
            None => Progress::Finish {
                outcome: CycleOutcome::Failed { query: QueryKind::TransientBalance },
            },
        }
    } else {
        Progress::Finish {
            outcome: CycleOutcome::Decided {
                decision: RebalanceDecision::NoAction { reason: NoActionReason::AllPreferredBusy },
            },
        }
    }
}

/// Takes the reply to the awaited query and says what comes next.
pub fn step(settings: &Settings, pending: Pending, reply: Reply) -> (p: Progress)
    ensures
        p == next(*settings, pending, reply),
{
    match pending {
        Pending::Epoch => match reply {
            Reply::EpochProgress { progress } => {
                match EpochWindow::new(
                    progress.slot_index,
                    progress.slots_in_epoch,
                    settings.left_epoch_threshold,
                ) {
                    None => Progress::Finish {
                        outcome: CycleOutcome::Failed { query: QueryKind::EpochProgress },
                    },
                    Some(window) => {
                        if !window.is_within_window() {
                            Progress::Finish {
                                outcome: CycleOutcome::Decided {
                                    decision: RebalanceDecision::NoAction {
                                        reason: NoActionReason::WindowNotReached,
                                    },
                                },
                            }
                        } else {
                            Progress::Ask {
                                pending: Pending::Pool,
                                query: Query::PoolState { pool_address: settings.pool_address },
                            }
                        }
                    },
                }
            },
            _ => Progress::Finish { outcome: CycleOutcome::Failed { query: QueryKind::EpochProgress } },
        },
        Pending::Pool => match reply {
            Reply::PoolState { state } => Progress::Ask {
                pending: Pending::Reserve { address: state.reserve_account_address },
                query: Query::ReserveBalance { address: state.reserve_account_address },
            },
            _ => Progress::Finish { outcome: CycleOutcome::Failed { query: QueryKind::PoolState } },
        },
        Pending::Reserve { .. } => match reply {
            Reply::ReserveBalance { account } => Progress::Ask {
                pending: Pending::Rent { reserve_balance: account.balance },
                query: Query::RentExemptMinimum,
            },
            _ => Progress::Finish { outcome: CycleOutcome::Failed { query: QueryKind::ReserveBalance } },
        },
        Pending::Rent { reserve_balance } => match reply {
            Reply::RentExemptMinimum { minimum } => match eligible_amount(
                reserve_balance,
                minimum,
                settings.min_stake_balance,
            ) {
                None => Progress::Finish {
                    outcome: CycleOutcome::Decided {
                        decision: RebalanceDecision::NoAction {
                            reason: NoActionReason::InsufficientReserve,
                        },
                    },
                },
                Some(amount) => scan(settings, amount, 0),
            },
            _ => Progress::Finish {
                outcome: CycleOutcome::Failed { query: QueryKind::RentExemptMinimum },
            },
        },
        Pending::Transient { amount, index, candidate } => match reply {
            Reply::TransientBalance { balance } => {
                if busy(&balance) {
                    if index < settings.preferred_validators.len() {
                        scan(settings, amount, index + 1)
                    } else {
                        Progress::Finish {
                            outcome: CycleOutcome::Decided {
                                decision: RebalanceDecision::NoAction {
                                    reason: NoActionReason::AllPreferredBusy,
                                },
                            },
                        }
                    }
                } else {
                    Progress::Finish {
                        outcome: CycleOutcome::Decided {
                            decision: RebalanceDecision::Increase { target_validator: candidate, amount },
                        },
                    }
                }
            },
            _ => Progress::Finish {
                outcome: CycleOutcome::Failed { query: QueryKind::TransientBalance },
            },
        },
    }
}

} // verus!
