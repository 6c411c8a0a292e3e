//! The reserve threshold: how much of the pool's reserve may be moved to a
//! validator without leaving the reserve below its safe operating balance.

use vstd::prelude::*;

verus! {

/// Native units per whole unit of the ledger's currency.
pub const NATIVE_UNITS_PER_COIN: u64 = 1_000_000_000;

/// The fixed safety buffer kept in every reserve: one whole coin.
pub const MIN_STAKE_BALANCE: u64 = NATIVE_UNITS_PER_COIN;

/// The balance that must stay in the reserve: one rent-exempt minimum for
/// the reserve account itself, a second as headroom for the account being
/// funded, and the safety buffer.
pub open spec fn reserve_floor(rent_exempt_minimum: u64, protocol_min_stake_balance: u64) -> int {
    2 * rent_exempt_minimum + protocol_min_stake_balance
}

/// The part of the reserve above the floor, if there is any.
pub open spec fn eligible(
    reserve_balance: u64,
    rent_exempt_minimum: u64,
    protocol_min_stake_balance: u64,
) -> Option<u64> {
    let floor = reserve_floor(rent_exempt_minimum, protocol_min_stake_balance);
    if reserve_balance <= floor {
        None
    } else {
        Some((reserve_balance - floor) as u64)
    }
}

/// The amount of reserve balance that may be moved: nothing while the
/// balance is at or below the floor, and otherwise the excess over it. A
/// floor too large for the machine's integers is above every balance.
pub fn eligible_amount(
    reserve_balance: u64,
    rent_exempt_minimum: u64,
    protocol_min_stake_balance: u64,
) -> (r: Option<u64>)
    ensures
        r == eligible(reserve_balance, rent_exempt_minimum, protocol_min_stake_balance),
        reserve_balance <= 2 * rent_exempt_minimum + protocol_min_stake_balance ==> r is None,
        reserve_balance > 2 * rent_exempt_minimum + protocol_min_stake_balance ==> r == Some(
            (reserve_balance - (2 * rent_exempt_minimum + protocol_min_stake_balance)) as u64,
        ),
        r matches Some(amount) ==> 0 < amount <= reserve_balance,
{
    let floor: u128 = 2 * (rent_exempt_minimum as u128) + (protocol_min_stake_balance as u128);
    if (reserve_balance as u128) <= floor {
        None
    } else {
        Some(reserve_balance - (floor as u64))
    }
}

} // verus!
