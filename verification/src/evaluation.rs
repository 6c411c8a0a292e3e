//! What an evaluation amounts to on a given ledger.
//!
//! The engine reads the ledger piece by piece. The laws here say that, read
//! against one state of the ledger, its questions and answers arrive at the
//! outcome that the state as a whole calls for, that they do so in a
//! bounded number of reads, and that a validator with a transfer in flight
//! is never the target.

use crate::candidate::{
    all_derivable, candidate_of, candidates_of, first_free_from, is_busy, ObservedCandidate,
    ValidatorCandidate,
};
use crate::chain::{EpochProgress, Ledger, QueryKind, Reply};
use crate::config::Settings;
use crate::decision::{decision_for, NoActionReason, RebalanceDecision};
use crate::engine::{awaited, next, CycleOutcome, Pending, Progress};
use crate::epoch::EpochWindow;
use crate::reserve::{eligible, reserve_floor};
use vstd::prelude::*;

verus! {

/// The epoch window that a reading of the epoch's progress gives.
pub open spec fn window_of(settings: Settings, progress: EpochProgress) -> EpochWindow {
    EpochWindow {
        current_slot_index: progress.slot_index,
        slots_in_epoch: progress.slots_in_epoch,
        left_epoch_threshold: settings.left_epoch_threshold,
    }
}

/// The candidate for the preferred validator at `index`, if it has one.
pub open spec fn candidate_at(settings: Settings, index: int) -> Option<ValidatorCandidate> {
    candidate_of(settings.preferred_validators@[index], settings.pool_address)
}

/// The preferred validator at `index` has a candidate, and the ledger holds
/// a positive balance in its transient account.
pub open spec fn busy_at(settings: Settings, ledger: Ledger, index: int) -> bool {
    candidate_at(settings, index) matches Some(candidate) && is_busy(
        ledger.balance_of(candidate.transient_stake_address),
    )
}

/// What the scan of the preferred validators from `from` on comes to on the
/// ledger: an increase of `amount` for the first validator whose transient
/// account holds no positive balance, no action where all are busy, and a
/// failure where the scan meets a validator without a transient address
/// before it finds a free one.
pub open spec fn scan_on(settings: Settings, ledger: Ledger, amount: u64, from: int) -> CycleOutcome
    decreases settings.preferred_validators@.len() - from,
{
    if from < 0 || from >= settings.preferred_validators@.len() {
        CycleOutcome::Decided {
            decision: RebalanceDecision::NoAction { reason: NoActionReason::AllPreferredBusy },
        }
    } else {
        match candidate_at(settings, from) {
            None => CycleOutcome::Failed { query: QueryKind::TransientBalance },
            Some(candidate) => if is_busy(ledger.balance_of(candidate.transient_stake_address)) {
                scan_on(settings, ledger, amount, from + 1)
            } else {
                CycleOutcome::Decided {
                    decision: RebalanceDecision::Increase { target_validator: candidate, amount },
                }
            },
        }
    }
}

/// The outcome that the state of the ledger calls for.
pub open spec fn outcome_on(settings: Settings, ledger: Ledger) -> CycleOutcome {
    match ledger.epoch {
        None => CycleOutcome::Failed { query: QueryKind::EpochProgress },
        Some(progress) => {
            let window = window_of(settings, progress);
            if !window.well_formed() {
                CycleOutcome::Failed { query: QueryKind::EpochProgress }
            } else if !window.within_window() {
                CycleOutcome::Decided {
                    decision: RebalanceDecision::NoAction { reason: NoActionReason::WindowNotReached },
                }
            } else {
                match ledger.pool_at(settings.pool_address) {
                    None => CycleOutcome::Failed { query: QueryKind::PoolState },
                    Some(pool) => match ledger.balance_of(pool.reserve_account_address) {
                        None => CycleOutcome::Failed { query: QueryKind::ReserveBalance },
                        Some(reserve_balance) => match ledger.rent_exempt_minimum {
                            None => CycleOutcome::Failed { query: QueryKind::RentExemptMinimum },
                            Some(rent_exempt_minimum) => match eligible(
                                reserve_balance,
                                rent_exempt_minimum,
                                settings.min_stake_balance,
                            ) {
                                None => CycleOutcome::Decided {
                                    decision: RebalanceDecision::NoAction {
                                        reason: NoActionReason::InsufficientReserve,
                                    },
                                },
                                Some(amount) => scan_on(settings, ledger, amount, 0),
                            },
                        },
                    },
                }
            }
        },
    }
}

/// The epoch can be read on the ledger and stands within the window.
pub open spec fn window_open(settings: Settings, ledger: Ledger) -> bool {
    ledger.epoch matches Some(progress) && window_of(settings, progress).well_formed() && window_of(
        settings,
        progress,
    ).within_window()
}

/// An evaluation of this ledger can stand at `pending`: what it has learnt
/// so far is what the ledger holds.
pub open spec fn consistent(settings: Settings, ledger: Ledger, pending: Pending) -> bool {
    match pending {
        Pending::Epoch => true,
        Pending::Pool => window_open(settings, ledger),
        Pending::Reserve { address } => {
            &&& window_open(settings, ledger)
            &&& ledger.pool_at(settings.pool_address) matches Some(pool)
            &&& address == pool.reserve_account_address
        },
        Pending::Rent { reserve_balance } => {
            &&& window_open(settings, ledger)
            &&& ledger.pool_at(settings.pool_address) matches Some(pool)
            &&& ledger.balance_of(pool.reserve_account_address) == Some(reserve_balance)
        },
        Pending::Transient { amount, index, candidate } => {
            &&& window_open(settings, ledger)
            &&& ledger.pool_at(settings.pool_address) matches Some(pool)
            &&& ledger.balance_of(pool.reserve_account_address) matches Some(reserve_balance)
            &&& ledger.rent_exempt_minimum matches Some(rent_exempt_minimum)
            &&& eligible(reserve_balance, rent_exempt_minimum, settings.min_stake_balance) == Some(
                amount,
            )
            &&& index < settings.preferred_validators@.len()
            &&& candidate_at(settings, index as int) == Some(candidate)
            &&& scan_on(settings, ledger, amount, 0) == scan_on(settings, ledger, amount, index as int)
        },
    }
}

/// An upper bound on the reads that an evaluation standing at `pending`
/// still makes, the awaited one included.
pub open spec fn reads_left(settings: Settings, pending: Pending) -> nat {
    let n = settings.preferred_validators@.len();
    match pending {
        Pending::Epoch => n + 4,
        Pending::Pool => n + 3,
        Pending::Reserve { .. } => n + 2,
        Pending::Rent { .. } => n + 1,
        Pending::Transient { index, .. } => if index < n {
            (n - index) as nat
        } else {
            1
        },
    }
}

/// The outcome of an evaluation that stands at `pending` and has every
/// query answered from `ledger`, if it ends within `reads` reads.
pub open spec fn run_on(settings: Settings, ledger: Ledger, pending: Pending, reads: nat) -> Option<
    CycleOutcome,
>
    decreases reads,
{
    if reads == 0 {
        None
    } else {
        match next(settings, pending, ledger.answer(awaited(settings, pending))) {
            Progress::Finish { outcome } => Some(outcome),
            Progress::Ask { pending: then, .. } => run_on(settings, ledger, then, (reads - 1) as nat),
        }
    }
}

/// Whatever the reply, a step that asks again asks the query that its new
/// state awaits.
pub proof fn lemma_step_asks_awaited(settings: Settings, pending: Pending, reply: Reply)
    ensures
        next(settings, pending, reply) matches Progress::Ask { pending: then, query } ==> query
            == awaited(settings, then),
{
}

/// One step against the ledger: an evaluation that stands consistently with
/// the ledger and is given the ledger's answer either finishes with the
/// outcome that the ledger calls for, or stands consistently again, with
/// fewer reads left.
pub proof fn lemma_step_on_ledger(settings: Settings, ledger: Ledger, pending: Pending)
    requires
        consistent(settings, ledger, pending),
    ensures
        match next(settings, pending, ledger.answer(awaited(settings, pending))) {
            Progress::Finish { outcome } => outcome == outcome_on(settings, ledger),
            Progress::Ask { pending: then, query } => {
                &&& consistent(settings, ledger, then)
                &&& query == awaited(settings, then)
                &&& reads_left(settings, then) < reads_left(settings, pending)
            },
        },
{
    vstd::std_specs::vec::axiom_spec_len(&settings.preferred_validators);
    match pending {
        Pending::Transient { amount, index, candidate } => {
            assert(scan_on(settings, ledger, amount, index as int) == (if is_busy(
                ledger.balance_of(candidate.transient_stake_address),
            ) {
                scan_on(settings, ledger, amount, index + 1)
            } else {
                CycleOutcome::Decided {
                    decision: RebalanceDecision::Increase { target_validator: candidate, amount },
                }
            }));
        },
        _ => {},
    }
}

/// A whole evaluation against the ledger: started consistently and given
/// enough reads, it ends, and with the outcome that the ledger calls for.
pub proof fn lemma_run_on_ledger(settings: Settings, ledger: Ledger, pending: Pending, reads: nat)
    requires
        consistent(settings, ledger, pending),
        reads >= reads_left(settings, pending),
    ensures
        run_on(settings, ledger, pending, reads) == Some(outcome_on(settings, ledger)),
    decreases reads,
{
    lemma_step_on_ledger(settings, ledger, pending);
    match next(settings, pending, ledger.answer(awaited(settings, pending))) {
        Progress::Finish { .. } => {},
        Progress::Ask { pending: then, .. } => {
            lemma_run_on_ledger(settings, ledger, then, (reads - 1) as nat);
        },
    }
}

/// An evaluation from the start, with every query answered from one state
/// of the ledger, makes at most four reads more than there are preferred
/// validators and ends with the outcome that the state calls for. It starts
/// from nothing but the settings, so the outcome does not depend on what an
/// earlier evaluation, or an earlier run of the process, saw or did.
pub proof fn lemma_evaluation_on_ledger(settings: Settings, ledger: Ledger)
    ensures
        run_on(settings, ledger, Pending::Epoch, settings.preferred_validators@.len() + 4) == Some(
            outcome_on(settings, ledger),
        ),
{
    lemma_run_on_ledger(settings, ledger, Pending::Epoch, settings.preferred_validators@.len() + 4);
}

/// Where the scan from `from` on comes to an increase, the amount is the
/// one scanned with, the target is the candidate of a preferred validator at
/// or after `from`, its transient account holds no positive balance, and
/// every validator passed over on the way is busy.
pub proof fn lemma_scan_increase(settings: Settings, ledger: Ledger, amount: u64, from: int)
    requires
        0 <= from,
        scan_on(settings, ledger, amount, from) matches CycleOutcome::Decided {
            decision: RebalanceDecision::Increase { .. },
        },
    ensures
        scan_on(settings, ledger, amount, from) matches CycleOutcome::Decided {
            decision: RebalanceDecision::Increase { target_validator, amount: moved },
        } && {
            &&& moved == amount
            &&& !is_busy(ledger.balance_of(target_validator.transient_stake_address))
            &&& exists|i: int|
                from <= i < settings.preferred_validators@.len() && #[trigger] candidate_at(
                    settings,
                    i,
                ) == Some(target_validator) && forall|j: int|
                    from <= j < i ==> #[trigger] busy_at(settings, ledger, j)
        },
    decreases settings.preferred_validators@.len() - from,
{
    let candidate = candidate_at(settings, from)->0;
    if is_busy(ledger.balance_of(candidate.transient_stake_address)) {
        lemma_scan_increase(settings, ledger, amount, from + 1);
        let target = scan_on(settings, ledger, amount, from)->decision->target_validator;
        let i = choose|i: int|
            from + 1 <= i < settings.preferred_validators@.len() && #[trigger] candidate_at(
                settings,
                i,
            ) == Some(target) && forall|j: int|
                from + 1 <= j < i ==> #[trigger] busy_at(settings, ledger, j);
        assert(candidate_at(settings, i) == Some(target));
    } else {
        assert(candidate_at(settings, from) == Some(candidate));
    }
}

/// The target of an increase is free: where the ledger calls for an
/// increase, the target is the candidate of a configured validator, its
/// transient account does not hold a positive balance, every validator
/// before it is busy, the epoch window is open, and the amount is the
/// positive excess of the reserve over its floor.
pub proof fn lemma_increase_targets_first_free(settings: Settings, ledger: Ledger)
    requires
        outcome_on(settings, ledger) matches CycleOutcome::Decided {
            decision: RebalanceDecision::Increase { .. },
        },
    ensures
        outcome_on(settings, ledger) matches CycleOutcome::Decided {
            decision: RebalanceDecision::Increase { target_validator, amount },
        } && {
            &&& window_open(settings, ledger)
            &&& !is_busy(ledger.balance_of(target_validator.transient_stake_address))
            &&& exists|i: int|
                0 <= i < settings.preferred_validators@.len() && #[trigger] candidate_at(settings, i)
                    == Some(target_validator) && forall|j: int|
                    0 <= j < i ==> #[trigger] busy_at(settings, ledger, j)
            &&& ledger.pool_at(settings.pool_address) matches Some(pool)
            &&& ledger.balance_of(pool.reserve_account_address) matches Some(reserve_balance)
            &&& ledger.rent_exempt_minimum matches Some(rent_exempt_minimum)
            &&& amount > 0
            &&& amount == reserve_balance - reserve_floor(rent_exempt_minimum, settings.min_stake_balance)
        },
{
    let pool = ledger.pool_at(settings.pool_address)->0;
    let reserve_balance = ledger.balance_of(pool.reserve_account_address)->0;
    let rent_exempt_minimum = ledger.rent_exempt_minimum->0;
    let amount = eligible(reserve_balance, rent_exempt_minimum, settings.min_stake_balance)->0;
    lemma_scan_increase(settings, ledger, amount, 0);
}

/// A validator with a transfer in flight is left alone: while the ledger
/// holds a positive balance in a validator's transient account, no increase
/// goes to that validator, whatever else the ledger holds.
pub proof fn lemma_busy_validator_is_not_targeted(
    settings: Settings,
    ledger: Ledger,
    validator: ValidatorCandidate,
)
    requires
        is_busy(ledger.balance_of(validator.transient_stake_address)),
    ensures
        !(outcome_on(settings, ledger) matches CycleOutcome::Decided {
            decision: RebalanceDecision::Increase { target_validator, .. },
        } && target_validator.transient_stake_address == validator.transient_stake_address),
{
    if outcome_on(settings, ledger) matches CycleOutcome::Decided {
        decision: RebalanceDecision::Increase { .. },
    } {
        lemma_increase_targets_first_free(settings, ledger);
    }
}

/// The configured candidates, each with the balance that the ledger holds
/// for its transient account; meaningful where every preferred validator
/// has a candidate.
pub open spec fn observed_on(settings: Settings, ledger: Ledger) -> Seq<ObservedCandidate> {
    let candidates = candidates_of(settings.preferred_validators@, settings.pool_address);
    Seq::new(
        candidates.len(),
        |i: int|
            ObservedCandidate {
                candidate: candidates[i],
                transient_balance: ledger.balance_of(candidates[i].transient_stake_address),
            },
    )
}

/// Where every preferred validator has a candidate, the scan from `from` on
/// comes to what the first free candidate at or after `from` decides.
pub proof fn lemma_scan_is_selection(settings: Settings, ledger: Ledger, amount: u64, from: int)
    requires
        0 <= from <= settings.preferred_validators@.len(),
        all_derivable(settings.preferred_validators@, settings.pool_address),
    ensures
        scan_on(settings, ledger, amount, from) == (CycleOutcome::Decided {
            decision: if first_free_from(observed_on(settings, ledger), from) < observed_on(
                settings,
                ledger,
            ).len() {
                RebalanceDecision::Increase {
                    target_validator: observed_on(settings, ledger)[first_free_from(
                        observed_on(settings, ledger),
                        from,
                    )].candidate,
                    amount,
                }
            } else {
                RebalanceDecision::NoAction { reason: NoActionReason::AllPreferredBusy }
            },
        }),
    decreases settings.preferred_validators@.len() - from,
{
    let observed = observed_on(settings, ledger);
    if from < settings.preferred_validators@.len() {
        assert(candidate_of(settings.preferred_validators@[from], settings.pool_address) is Some);
        assert(candidate_at(settings, from) == Some(observed[from].candidate));
        if is_busy(observed[from].transient_balance) {
            lemma_scan_is_selection(settings, ledger, amount, from + 1);
        }
    }
}

/// The engine and the decision on a snapshot agree: where the ledger can be
/// read and every preferred validator has a candidate, the outcome that the
/// ledger calls for is the decision for the snapshot of what it holds.
pub proof fn lemma_outcome_is_decision(settings: Settings, ledger: Ledger)
    requires
        ledger.epoch matches Some(progress) && window_of(settings, progress).well_formed(),
        ledger.pool_at(settings.pool_address) matches Some(pool) && ledger.balance_of(
            pool.reserve_account_address,
        ) is Some,
        ledger.rent_exempt_minimum is Some,
        all_derivable(settings.preferred_validators@, settings.pool_address),
    ensures
        outcome_on(settings, ledger) == (CycleOutcome::Decided {
            decision: decision_for(
                window_of(settings, ledger.epoch->0),
                ledger.balance_of(
                    ledger.pool_at(settings.pool_address)->0.reserve_account_address,
                )->0,
                ledger.rent_exempt_minimum->0,
                settings.min_stake_balance,
                observed_on(settings, ledger),
            ),
        }),
{
    let pool = ledger.pool_at(settings.pool_address)->0;
    let reserve_balance = ledger.balance_of(pool.reserve_account_address)->0;
    let rent_exempt_minimum = ledger.rent_exempt_minimum->0;
    match eligible(reserve_balance, rent_exempt_minimum, settings.min_stake_balance) {
        Some(amount) => {
            lemma_scan_is_selection(settings, ledger, amount, 0);
        },
        None => {},
    }
}

} // verus!
