//! Candidate validators and the first-free selection policy.
//!
//! A validator whose transient stake account holds a positive balance has a
//! transfer in flight and must not receive another one. Whether that is so
//! is read from the ledger every time; nothing is remembered between reads.

use crate::address::{
    address_with_bytes, derive_transient_stake_address, lemma_address_with_bytes,
    transient_stake_address_of, Address,
};
use vstd::prelude::*;

verus! {

/// A validator that may receive stake, with the address of the transient
/// account that holds stake while a transfer to it settles.
#[derive(Clone, Copy, Debug, PartialEq, Eq)]
pub struct ValidatorCandidate {
    pub vote_account_address: Address,
    pub transient_stake_address: Address,
}

/// The candidate for the validator `vote` in the pool `pool`: its transient
/// address is the one the stake-pool program derives from the two. There is
/// no candidate where no such address is found.
pub open spec fn candidate_of(vote: Address, pool: Address) -> Option<ValidatorCandidate> {
    match transient_stake_address_of(vote@, pool@) {
        Some(bytes) => Some(
            ValidatorCandidate {
                vote_account_address: vote,
                transient_stake_address: address_with_bytes(bytes),
            },
        ),
        None => None,
    }
}

/// Every one of the vote accounts `preferred` has a candidate.
pub open spec fn all_derivable(preferred: Seq<Address>, pool: Address) -> bool {
    forall|i: int| 0 <= i < preferred.len() ==> candidate_of(#[trigger] preferred[i], pool) is Some
}

/// The candidates for the vote accounts `preferred`, in the same order;
/// meaningful where every one of them has a candidate.
pub open spec fn candidates_of(preferred: Seq<Address>, pool: Address) -> Seq<ValidatorCandidate> {
    Seq::new(preferred.len(), |i: int| candidate_of(preferred[i], pool)->0)
}

impl ValidatorCandidate {
    /// The candidate for the validator `vote` in the pool `pool`, if a
    /// transient address can be derived for it.
    pub fn derive(vote: Address, pool: &Address) -> (c: Option<ValidatorCandidate>)
        ensures
            c == candidate_of(vote, *pool),
            c matches Some(found) ==> found.vote_account_address == vote && Some(
                found.transient_stake_address@,
            ) == transient_stake_address_of(vote@, pool@),
            c is None <==> transient_stake_address_of(vote@, pool@) is None,
    {
        match derive_transient_stake_address(&vote, pool) {
            Some(transient) => {
                proof {
                    lemma_address_with_bytes(transient);
                }
                Some(ValidatorCandidate { vote_account_address: vote, transient_stake_address: transient })
            },
            None => None,
        }
    }
}

/// Builds the candidate list from the configured vote accounts, keeping
/// their order, which is their priority. There is no list where one of the
/// vote accounts has no candidate.
pub fn build_candidates(pool: &Address, preferred: &Vec<Address>) -> (built: Option<
    Vec<ValidatorCandidate>,
>)
    ensures
        built is Some <==> all_derivable(preferred@, *pool),
        built matches Some(list) ==> list@ == candidates_of(preferred@, *pool),
{
    let mut list: Vec<ValidatorCandidate> = Vec::new();
    let mut i: usize = 0;
    while i < preferred.len()
        invariant
            i <= preferred.len(),
            all_derivable(preferred@.take(i as int), *pool),
            list@ == candidates_of(preferred@.take(i as int), *pool),
        decreases preferred.len() - i,
    {
        match ValidatorCandidate::derive(preferred[i], pool) {
            Some(candidate) => {
                list.push(candidate);
            },
            None => {
                return None;
            },
        }
        i += 1;
        assert(list@ =~= candidates_of(preferred@.take(i as int), *pool));
    }
    proof {
        assert(preferred@.take(i as int) =~= preferred@);
    }
    Some(list)
}

/// A transient account that exists and holds a positive balance marks its
/// validator as busy. `None` stands for an account that does not exist.
pub open spec fn is_busy(transient_balance: Option<u64>) -> bool {
    transient_balance matches Some(balance) && balance > 0
}

/// Whether a transient account with this balance marks its validator busy.
pub fn busy(transient_balance: &Option<u64>) -> (r: bool)
    ensures
        r == is_busy(*transient_balance),
{
    match transient_balance {
        Some(balance) => *balance > 0,
        None => false,
    }
}

/// A candidate together with the balance read for its transient account.
#[derive(Clone, Copy, Debug, PartialEq, Eq)]
pub struct ObservedCandidate {
    pub candidate: ValidatorCandidate,
    pub transient_balance: Option<u64>,
}

/// Index of the first candidate at or after `from` that is not busy, or the
/// length of the sequence where there is none.
pub open spec fn first_free_from(preferred_order: Seq<ObservedCandidate>, from: int) -> int
    decreases preferred_order.len() - from,
{
    if from < 0 || from >= preferred_order.len() {
        preferred_order.len() as int
    } else if !is_busy(preferred_order[from].transient_balance) {
        from
    } else {
        first_free_from(preferred_order, from + 1)
    }
}

/// The first candidate, in the given order, that is not busy.
pub open spec fn selected(preferred_order: Seq<ObservedCandidate>) -> Option<ValidatorCandidate> {
    let i = first_free_from(preferred_order, 0);
    if i < preferred_order.len() {
        Some(preferred_order[i].candidate)
    } else {
        None
    }
}

/// `first_free_from` stays within the sequence, lands on a candidate that is
/// not busy, and passes over busy candidates only.
pub proof fn lemma_first_free_from(preferred_order: Seq<ObservedCandidate>, from: int)
    requires
        0 <= from <= preferred_order.len(),
    ensures
        from <= first_free_from(preferred_order, from) <= preferred_order.len(),
        first_free_from(preferred_order, from) < preferred_order.len() ==> !is_busy(
            preferred_order[first_free_from(preferred_order, from)].transient_balance,
        ),
        forall|j: int|
            from <= j < first_free_from(preferred_order, from) ==> is_busy(
                (#[trigger] preferred_order[j]).transient_balance,
            ),
    decreases preferred_order.len() - from,
{
    if from < preferred_order.len() && is_busy(preferred_order[from].transient_balance) {
        lemma_first_free_from(preferred_order, from + 1);
    }
}

/// Scans the candidates in their configured order and returns the first one
/// that is not busy; `None` where all are busy or none is configured.
pub fn select_candidate(preferred_order: &Vec<ObservedCandidate>) -> (r: Option<ValidatorCandidate>)
    ensures
        r == selected(preferred_order@),
        match r {
            Some(c) => exists|i: int|
                0 <= i < preferred_order.len() && c == (#[trigger] preferred_order[i]).candidate
                    && !is_busy(preferred_order[i].transient_balance) && forall|j: int|
                    0 <= j < i ==> is_busy((#[trigger] preferred_order[j]).transient_balance),
            None => forall|j: int|
                0 <= j < preferred_order.len() ==> is_busy(
                    (#[trigger] preferred_order[j]).transient_balance,
                ),
        },
{
    let mut i: usize = 0;
    while i < preferred_order.len()
        invariant
            i <= preferred_order.len(),
            first_free_from(preferred_order@, 0) == first_free_from(preferred_order@, i as int),
            forall|j: int| 0 <= j < i ==> is_busy((#[trigger] preferred_order[j]).transient_balance),
        decreases preferred_order.len() - i,
    {
        if !busy(&preferred_order[i].transient_balance) {
            return Some(preferred_order[i].candidate);
        }
        i += 1;
    }
    None
}

} // verus!
