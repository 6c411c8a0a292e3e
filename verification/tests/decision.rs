use stake_pool_bot::address::Address;
use stake_pool_bot::candidate::{ObservedCandidate, ValidatorCandidate};
use stake_pool_bot::decision::{decide, NoActionReason, RebalanceDecision, Severity};
use stake_pool_bot::epoch::EpochWindow;

fn candidate(n: u8) -> ValidatorCandidate {
    ValidatorCandidate {
        vote_account_address: Address::from_bytes([n; 32]),
        transient_stake_address: Address::from_bytes([n + 100; 32]),
    }
}

fn seen(n: u8, transient_balance: Option<u64>) -> ObservedCandidate {
    ObservedCandidate { candidate: candidate(n), transient_balance }
}

fn open_window() -> EpochWindow {
    EpochWindow::new(432_000 - 150, 432_000, 200).unwrap()
}

fn closed_window() -> EpochWindow {
    EpochWindow::new(432_000 - 300, 432_000, 200).unwrap()
}

#[test]
fn decision_increases_the_first_free_validator_by_the_eligible_amount() {
    let order = vec![seen(1, Some(10)), seen(2, None)];
    let d = decide(&open_window(), 5_000_000_000, 2_000_000, 1_000_000_000, &order);
    assert_eq!(
        d,
        RebalanceDecision::Increase { target_validator: candidate(2), amount: 3_996_000_000 }
    );
}

#[test]
fn decision_is_no_action_outside_the_window() {
    let order = vec![seen(1, Some(10)), seen(2, None)];
    let d = decide(&closed_window(), 5_000_000_000, 2_000_000, 1_000_000_000, &order);
    assert_eq!(d, RebalanceDecision::NoAction { reason: NoActionReason::WindowNotReached });
    match d {
        RebalanceDecision::NoAction { reason } => assert_eq!(reason.message(), "window not reached"),
        RebalanceDecision::Increase { .. } => panic!("no increase outside the window"),
    }
}

#[test]
fn decision_is_no_action_when_the_reserve_equals_the_floor() {
    let order = vec![seen(1, None)];
    let d = decide(&open_window(), 1_004_000_000, 2_000_000, 1_000_000_000, &order);
    assert_eq!(d, RebalanceDecision::NoAction { reason: NoActionReason::InsufficientReserve });
    match d {
        RebalanceDecision::NoAction { reason } => assert_eq!(reason.message(), "insufficient reserve"),
        RebalanceDecision::Increase { .. } => panic!("no increase at the floor"),
    }
}

#[test]
fn decision_is_no_action_when_all_candidates_are_busy() {
    let order = vec![seen(1, Some(10)), seen(2, Some(1))];
    let d = decide(&open_window(), 5_000_000_000, 2_000_000, 1_000_000_000, &order);
    assert_eq!(d, RebalanceDecision::NoAction { reason: NoActionReason::AllPreferredBusy });
    match d {
        RebalanceDecision::NoAction { reason } => {
            assert!(reason.message().starts_with("all preferred validators busy"));
            assert_eq!(reason.severity(), Severity::Warning);
        },
        RebalanceDecision::Increase { .. } => panic!("no increase while all are busy"),
    }
}

#[test]
fn decision_is_no_action_when_no_candidate_is_configured() {
    let order: Vec<ObservedCandidate> = Vec::new();
    let d = decide(&open_window(), 5_000_000_000, 2_000_000, 1_000_000_000, &order);
    assert_eq!(d, RebalanceDecision::NoAction { reason: NoActionReason::AllPreferredBusy });
}

#[test]
fn decision_checks_the_window_before_the_reserve_and_the_reserve_before_the_candidates() {
    let busy_order = vec![seen(1, Some(10))];
    let d = decide(&closed_window(), 0, 2_000_000, 1_000_000_000, &busy_order);
    assert_eq!(d, RebalanceDecision::NoAction { reason: NoActionReason::WindowNotReached });
    let d = decide(&open_window(), 0, 2_000_000, 1_000_000_000, &busy_order);
    assert_eq!(d, RebalanceDecision::NoAction { reason: NoActionReason::InsufficientReserve });
}

#[test]
fn decision_moves_a_single_unit_just_above_the_floor() {
    let order = vec![seen(1, Some(0))];
    let d = decide(&open_window(), 1_004_000_001, 2_000_000, 1_000_000_000, &order);
    assert_eq!(d, RebalanceDecision::Increase { target_validator: candidate(1), amount: 1 });
}

#[test]
fn decision_never_targets_a_busy_validator() {
    let balances = [None, Some(0), Some(1), Some(7)];
    for a in balances {
        for b in balances {
            for c in balances {
                let order = vec![seen(1, a), seen(2, b), seen(3, c)];
                let d = decide(&open_window(), 5_000_000_000, 2_000_000, 1_000_000_000, &order);
                if let RebalanceDecision::Increase { target_validator, amount } = d {
                    assert_eq!(amount, 3_996_000_000);
                    let at = order.iter().position(|o| o.candidate == target_validator).unwrap();
                    assert!(order[at].transient_balance.unwrap_or(0) == 0);
                    for earlier in &order[..at] {
                        assert!(earlier.transient_balance.unwrap_or(0) > 0);
                    }
                } else {
                    assert!(order.iter().all(|o| o.transient_balance.unwrap_or(0) > 0));
                }
            }
        }
    }
}

#[test]
fn reasons_have_their_texts_and_severities() {
    assert_eq!(NoActionReason::WindowNotReached.message(), "window not reached");
    assert_eq!(NoActionReason::InsufficientReserve.message(), "insufficient reserve");
    assert_eq!(
        NoActionReason::AllPreferredBusy.message(),
        "all preferred validators busy / none configured"
    );
    assert_eq!(NoActionReason::WindowNotReached.severity(), Severity::Info);
    assert_eq!(NoActionReason::InsufficientReserve.severity(), Severity::Info);
    assert_eq!(NoActionReason::AllPreferredBusy.severity(), Severity::Warning);
}
