//! The rebalance decision: whether to move reserve funds, to whom, and how
//! much, from one snapshot of the ledger.

use crate::candidate::{
    is_busy, lemma_first_free_from, select_candidate, selected, ObservedCandidate,
    ValidatorCandidate,
};
use crate::epoch::EpochWindow;
use crate::reserve::{eligible, eligible_amount, reserve_floor};
use vstd::prelude::*;

verus! {

/// How loudly an outcome is to be reported.
#[derive(Clone, Copy, Debug, PartialEq, Eq)]
pub enum Severity {
    Info,
    Warning,
    Error,
}

/// Why an evaluation ended without a rebalance.
#[derive(Clone, Copy, Debug, PartialEq, Eq)]
pub enum NoActionReason {
    /// More slots remain in the epoch than the configured threshold.
    WindowNotReached,
    /// The reserve holds no more than its floor.
    InsufficientReserve,
    /// Every preferred validator has a transfer in flight, or none is
    /// configured: eligible funds stay in the reserve.
    AllPreferredBusy,
}

impl NoActionReason {
    /// The text that names the reason.
    pub open spec fn message_text(self) -> Seq<char> {
        match self {
            NoActionReason::WindowNotReached => "window not reached"@,
            NoActionReason::InsufficientReserve => "insufficient reserve"@,
            NoActionReason::AllPreferredBusy => "all preferred validators busy / none configured"@,
        }
    }

    /// The text that names the reason.
    pub fn message(&self) -> (r: &'static str)
        ensures
            r@ == self.message_text(),
    {
        match self {
            NoActionReason::WindowNotReached => "window not reached",
            NoActionReason::InsufficientReserve => "insufficient reserve",
            NoActionReason::AllPreferredBusy => "all preferred validators busy / none configured",
        }
    }

    /// Funds stranded in the reserve are worth a warning; the other reasons
    /// are routine.
    pub open spec fn severity_of(self) -> Severity {
        match self {
            NoActionReason::AllPreferredBusy => Severity::Warning,
            _ => Severity::Info,
        }
    }

    /// How loudly the reason is to be reported.
    pub fn severity(&self) -> (r: Severity)
        ensures
            r == self.severity_of(),
    {
        match self {
            NoActionReason::AllPreferredBusy => Severity::Warning,
            _ => Severity::Info,
        }
    }
}

/// The result of one evaluation.
#[derive(Clone, Copy, Debug, PartialEq, Eq)]
pub enum RebalanceDecision {
    NoAction { reason: NoActionReason },
    Increase { target_validator: ValidatorCandidate, amount: u64 },
}

/// The decision that a snapshot calls for: nothing outside the epoch window,
/// nothing while the reserve is at or below its floor, nothing while every
/// candidate is busy, and otherwise the whole eligible amount to the first
/// candidate that is not busy.
pub open spec fn decision_for(
    window: EpochWindow,
    reserve_balance: u64,
    rent_exempt_minimum: u64,
    protocol_min_stake_balance: u64,
    preferred_order: Seq<ObservedCandidate>,
) -> RebalanceDecision {
    if !window.within_window() {
        RebalanceDecision::NoAction { reason: NoActionReason::WindowNotReached }
    } else {
        match eligible(reserve_balance, rent_exempt_minimum, protocol_min_stake_balance) {
            None => RebalanceDecision::NoAction { reason: NoActionReason::InsufficientReserve },
            Some(amount) => match selected(preferred_order) {
                None => RebalanceDecision::NoAction { reason: NoActionReason::AllPreferredBusy },
                Some(target_validator) => RebalanceDecision::Increase { target_validator, amount },
            },
        }
    }
}

/// When each decision is taken: the window is checked first, then the
/// reserve, then the candidates. An increase goes to a candidate that is not
/// busy and that only busy candidates precede, and moves the positive
/// excess of the reserve over its floor.
pub proof fn lemma_decision_for(
    window: EpochWindow,
    reserve_balance: u64,
    rent_exempt_minimum: u64,
    protocol_min_stake_balance: u64,
    preferred_order: Seq<ObservedCandidate>,
)
    ensures
        match decision_for(
            window,
            reserve_balance,
            rent_exempt_minimum,
            protocol_min_stake_balance,
            preferred_order,
        ) {
            RebalanceDecision::NoAction { reason: NoActionReason::WindowNotReached } => {
                !window.within_window()
            },
            RebalanceDecision::NoAction { reason: NoActionReason::InsufficientReserve } => {
                &&& window.within_window()
                &&& reserve_balance <= reserve_floor(rent_exempt_minimum, protocol_min_stake_balance)
            },
            RebalanceDecision::NoAction { reason: NoActionReason::AllPreferredBusy } => {
                &&& window.within_window()
                &&& reserve_balance > reserve_floor(rent_exempt_minimum, protocol_min_stake_balance)
                &&& forall|j: int|
                    0 <= j < preferred_order.len() ==> is_busy(
                        (#[trigger] preferred_order[j]).transient_balance,
                    )
            },
            RebalanceDecision::Increase { target_validator, amount } => {
                &&& window.within_window()
                &&& amount > 0
                &&& amount == reserve_balance - reserve_floor(
                    rent_exempt_minimum,
                    protocol_min_stake_balance,
                )
                &&& exists|i: int|
                    0 <= i < preferred_order.len() && target_validator == (
                    #[trigger] preferred_order[i]).candidate && !is_busy(
                        preferred_order[i].transient_balance,
                    ) && forall|j: int|
                        0 <= j < i ==> is_busy((#[trigger] preferred_order[j]).transient_balance)
            },
        },
{
    lemma_first_free_from(preferred_order, 0);
}

/// Evaluates one snapshot: the epoch window, the reserve balance with the
/// two minimums that make up its floor, and the preferred validators in
/// priority order, each with the balance read for its transient account.
pub fn decide(
    window: &EpochWindow,
    reserve_balance: u64,
    rent_exempt_minimum: u64,
    protocol_min_stake_balance: u64,
    preferred_order: &Vec<ObservedCandidate>,
) -> (d: RebalanceDecision)
    requires
        window.well_formed(),
    ensures
        d == decision_for(
            *window,
            reserve_balance,
            rent_exempt_minimum,
            protocol_min_stake_balance,
            preferred_order@,
        ),
{
    if !window.is_within_window() {
        return RebalanceDecision::NoAction { reason: NoActionReason::WindowNotReached };
    }
    match eligible_amount(reserve_balance, rent_exempt_minimum, protocol_min_stake_balance) {
        None => RebalanceDecision::NoAction { reason: NoActionReason::InsufficientReserve },
        Some(amount) => match select_candidate(preferred_order) {
            None => RebalanceDecision::NoAction { reason: NoActionReason::AllPreferredBusy },
            Some(target_validator) => RebalanceDecision::Increase { target_validator, amount },
        },
    }
}

} // verus!
