//! Startup validation: the checks that must pass before the loop is
//! entered, in a fixed order, and the settings that come out of them.
//!
//! Reading files and reaching the ledger is left to the caller, who reports
//! what was found as [`StartupFacts`]. Which check failed first is decided
//! here.

use crate::address::{
    address_bytes, address_with_bytes, decode_address, decoded_address, lemma_address_with_bytes,
    Address,
};
use crate::config::{BotConf, Settings};
use crate::reserve::{MIN_STAKE_BALANCE, NATIVE_UNITS_PER_COIN};
use vstd::prelude::*;

verus! {

/// The least balance, in native units, that the signer needs to pay the
/// fees of the actions to come: a thousandth of a coin.
pub const MIN_FEE_BALANCE: u64 = NATIVE_UNITS_PER_COIN / 1000;

/// The startup check that failed. Each is fatal; none is retried.
#[derive(Clone, Copy, Debug, PartialEq, Eq)]
pub enum StartupError {
    ConfigUnreadable,
    ConfigMalformed,
    KeyMaterialUnavailable,
    LedgerUnreachable,
    InsufficientFeeBalance,
    InvalidPoolAddress,
    UnknownPool,
    /// The preferred validator at `index` is not the text of an address.
    InvalidVoteAddress { index: usize },
    /// The preferred validator at `index` is not in the pool's validator set.
    ValidatorNotInPool { index: usize },
}

impl StartupError {
    /// A short text that names the failed check.
    pub open spec fn message_text(self) -> Seq<char> {
        match self {
            StartupError::ConfigUnreadable => "unable to read the configuration"@,
            StartupError::ConfigMalformed => "unable to parse the configuration"@,
            StartupError::KeyMaterialUnavailable => "unable to load the signer's key"@,
            StartupError::LedgerUnreachable => "unable to read the signer's account"@,
            StartupError::InsufficientFeeBalance => "signer balance too low to pay fees"@,
            StartupError::InvalidPoolAddress => "invalid stake pool address"@,
            StartupError::UnknownPool => "no stake pool at the configured address"@,
            StartupError::InvalidVoteAddress { .. } => "invalid vote address"@,
            StartupError::ValidatorNotInPool { .. } => "configured vote address not in stake pool"@,
        }
    }

    /// A short text that names the failed check.
    pub fn message(&self) -> (r: &'static str)
        ensures
            r@ == self.message_text(),
    {
        match self {
            StartupError::ConfigUnreadable => "unable to read the configuration",
            StartupError::ConfigMalformed => "unable to parse the configuration",
            StartupError::KeyMaterialUnavailable => "unable to load the signer's key",
            StartupError::LedgerUnreachable => "unable to read the signer's account",
            StartupError::InsufficientFeeBalance => "signer balance too low to pay fees",
            StartupError::InvalidPoolAddress => "invalid stake pool address",
            StartupError::UnknownPool => "no stake pool at the configured address",
            StartupError::InvalidVoteAddress { .. } => "invalid vote address",
            StartupError::ValidatorNotInPool { .. } => "configured vote address not in stake pool",
        }
    }
}

/// The signer can pay fees exactly when its balance is at least
/// [`MIN_FEE_BALANCE`].
pub fn check_fee_balance(signer_balance: u64) -> (r: Result<(), StartupError>)
    ensures
        r == (if signer_balance < MIN_FEE_BALANCE {
            Err::<(), StartupError>(StartupError::InsufficientFeeBalance)
        } else {
            Ok::<(), StartupError>(())
        }),
{
    if signer_balance < MIN_FEE_BALANCE {
        Err(StartupError::InsufficientFeeBalance)
    } else {
        Ok(())
    }
}

/// The address that a text stands for, if it stands for one.
pub open spec fn parsed(text: Seq<char>) -> Option<Address> {
    match decoded_address(text) {
        Some(bytes) => Some(address_with_bytes(bytes)),
        None => None,
    }
}

/// Decodes the base-58 text of an address.
pub fn parse_address(text: &str) -> (r: Option<Address>)
    ensures
        r == parsed(text@),
        address_bytes(r) == decoded_address(text@),
{
    let r = decode_address(text);
    proof {
        if let Some(a) = r {
            lemma_address_with_bytes(a);
        }
    }
    r
}

/// Decodes the configured pool address.
pub fn parse_pool_address(text: &str) -> (r: Result<Address, StartupError>)
    ensures
        r == (match parsed(text@) {
            Some(a) => Ok::<Address, StartupError>(a),
            None => Err::<Address, StartupError>(StartupError::InvalidPoolAddress),
        }),
{
    match parse_address(text) {
        Some(a) => Ok(a),
        None => Err(StartupError::InvalidPoolAddress),
    }
}

/// Whether `vote` is among the pool's validators.
pub fn is_member(validators: &Vec<Address>, vote: &Address) -> (r: bool)
    ensures
        r == validators@.contains(*vote),
{
    let mut k: usize = 0;
    while k < validators.len()
        invariant
            k <= validators.len(),
            forall|j: int| 0 <= j < k ==> validators@[j] != *vote,
        decreases validators.len() - k,
    {
        if validators[k].same_as(vote) {
            return true;
        }
        k += 1;
    }
    false
}

/// What is wrong with the preferred validator at `index`, if anything: its
/// text is no address, or the address is not among the pool's validators.
pub open spec fn fault_at(decoded: Seq<Option<Address>>, validators: Seq<Address>, index: int) -> Option<
    StartupError,
> {
    match decoded[index] {
        None => Some(StartupError::InvalidVoteAddress { index: index as usize }),
        Some(vote) => if validators.contains(vote) {
            None
        } else {
            Some(StartupError::ValidatorNotInPool { index: index as usize })
        },
    }
}

/// The fault of the first preferred validator at or after `from` that has
/// one.
pub open spec fn first_fault_from(
    decoded: Seq<Option<Address>>,
    validators: Seq<Address>,
    from: int,
) -> Option<StartupError>
    decreases decoded.len() - from,
{
    if from < 0 || from >= decoded.len() {
        None
    } else if fault_at(decoded, validators, from) is Some {
        fault_at(decoded, validators, from)
    } else {
        first_fault_from(decoded, validators, from + 1)
    }
}

/// The preferred validators' addresses, or the first fault among them.
pub open spec fn resolved(decoded: Seq<Option<Address>>, validators: Seq<Address>) -> Result<
    Seq<Address>,
    StartupError,
> {
    match first_fault_from(decoded, validators, 0) {
        Some(e) => Err(e),
        None => Ok(Seq::new(decoded.len(), |i: int| decoded[i]->0)),
    }
}

/// Checks the preferred validators in their configured order, each first
/// for being an address and then for belonging to the pool, and stops at
/// the first that fails. `decoded[i]` is what the text of the `i`-th
/// preferred validator decoded to.
pub fn resolve_preferred(decoded: &Vec<Option<Address>>, validators: &Vec<Address>) -> (r: Result<
    Vec<Address>,
    StartupError,
>)
    ensures
        match r {
            Ok(preferred) => resolved(decoded@, validators@) == Ok::<Seq<Address>, StartupError>(
                preferred@,
            ),
            Err(e) => resolved(decoded@, validators@) == Err::<Seq<Address>, StartupError>(e),
        },
{
    let mut preferred: Vec<Address> = Vec::new();
    let mut i: usize = 0;
    while i < decoded.len()
        invariant
            i <= decoded.len(),
            first_fault_from(decoded@, validators@, 0) == first_fault_from(
                decoded@,
                validators@,
                i as int,
            ),
            preferred@.len() == i,
            forall|j: int| 0 <= j < i ==> decoded@[j] == Some(#[trigger] preferred@[j]),
        decreases decoded.len() - i,
    {
        match decoded[i] {
            None => {
                return Err(StartupError::InvalidVoteAddress { index: i });
            },
            Some(vote) => {
                if !is_member(validators, &vote) {
                    return Err(StartupError::ValidatorNotInPool { index: i });
                }
                preferred.push(vote);
            },
        }
        i += 1;
    }
    proof {
        assert(preferred@ =~= Seq::new(decoded@.len(), |i: int| decoded@[i]->0));
    }
    Ok(preferred)
}

/// What each of the texts decodes to.
pub open spec fn parsed_all(texts: Seq<String>) -> Seq<Option<Address>> {
    Seq::new(texts.len(), |i: int| parsed(texts[i]@))
}

/// Decodes the texts of the preferred validators, one by one.
pub fn parse_all(texts: &Vec<String>) -> (decoded: Vec<Option<Address>>)
    ensures
        decoded@ == parsed_all(texts@),
{
    let mut decoded: Vec<Option<Address>> = Vec::new();
    let mut i: usize = 0;
    while i < texts.len()
        invariant
            i <= texts.len(),
            decoded@.len() == i,
            forall|j: int| 0 <= j < i ==> #[trigger] decoded@[j] == parsed(texts@[j]@),
        decreases texts.len() - i,
    {
        decoded.push(parse_address(texts[i].as_str()));
        i += 1;
    }
    proof {
        assert(decoded@ =~= parsed_all(texts@));
    }
    decoded
}

/// Validates the configured preferred validators against the pool's
/// validator set and gives their addresses in configured order.
pub fn validate_preferred(texts: &Vec<String>, validators: &Vec<Address>) -> (r: Result<
    Vec<Address>,
    StartupError,
>)
    ensures
        match r {
            Ok(preferred) => resolved(parsed_all(texts@), validators@) == Ok::<
                Seq<Address>,
                StartupError,
            >(preferred@),
            Err(e) => resolved(parsed_all(texts@), validators@) == Err::<Seq<Address>, StartupError>(
                e,
            ),
        },
{
    let decoded = parse_all(texts);
    resolve_preferred(&decoded, validators)
}

/// What came of loading the configuration.
#[derive(Clone, Debug, PartialEq, Eq)]
pub enum ConfLoad {
    Unreadable,
    Malformed,
    Loaded { conf: BotConf },
}

/// What the caller found while preparing to start. A fact that could not be
/// gathered because an earlier step failed is left at `None`.
#[derive(Clone, Debug, PartialEq, Eq)]
pub struct StartupFacts {
    pub conf: ConfLoad,
    /// The signer's key could be loaded.
    pub key_loaded: bool,
    /// The signer's balance; `None` where the ledger could not be read.
    pub signer_balance: Option<u64>,
    /// The vote accounts of the pool's validators; `None` where no pool was
    /// found at the configured address.
    pub pool_validators: Option<Vec<Address>>,
}

/// The first check that the facts fail, in the order in which the checks
/// are made; `None` where they pass them all.
pub open spec fn startup_fault(facts: StartupFacts) -> Option<StartupError> {
    match facts.conf {
        ConfLoad::Unreadable => Some(StartupError::ConfigUnreadable),
        ConfLoad::Malformed => Some(StartupError::ConfigMalformed),
        ConfLoad::Loaded { conf } => {
            if !facts.key_loaded {
                Some(StartupError::KeyMaterialUnavailable)
            } else if facts.signer_balance is None {
                Some(StartupError::LedgerUnreachable)
            } else if facts.signer_balance->0 < MIN_FEE_BALANCE {
                Some(StartupError::InsufficientFeeBalance)
            } else if parsed(conf.stake_pool_address@) is None {
                Some(StartupError::InvalidPoolAddress)
            } else if facts.pool_validators is None {
                Some(StartupError::UnknownPool)
            } else {
                first_fault_from(
                    parsed_all(conf.preferred_vote_account@),
                    facts.pool_validators->0@,
                    0,
                )
            }
        },
    }
}

/// The settings are those that the configuration spells out.
pub open spec fn settings_from(settings: Settings, conf: BotConf) -> bool {
    &&& Some(settings.pool_address) == parsed(conf.stake_pool_address@)
    &&& settings.left_epoch_threshold == conf.rebalance_left_epoch
    &&& settings.preferred_validators@.len() == conf.preferred_vote_account@.len()
    &&& forall|i: int|
        0 <= i < settings.preferred_validators@.len() ==> Some(
            #[trigger] settings.preferred_validators@[i],
        ) == parsed(conf.preferred_vote_account@[i]@)
    &&& settings.dry_run == conf.dry_run
    &&& settings.loop_interval_seconds == conf.loop_second
    &&& settings.disable_rebalance == conf.disable_rebalance
    &&& settings.min_stake_balance == MIN_STAKE_BALANCE
}

/// Makes the startup checks in order and builds the settings. The result
/// is the first check that failed, or, where none did, the settings that
/// the configuration spells out, with every preferred validator a member
/// of the pool.
pub fn validate_startup(facts: &StartupFacts) -> (r: Result<Settings, StartupError>)
    ensures
        match r {
            Err(e) => startup_fault(*facts) == Some(e),
            Ok(settings) => {
                &&& startup_fault(*facts) is None
                &&& facts.conf matches ConfLoad::Loaded { conf }
                &&& settings_from(settings, conf)
                &&& facts.pool_validators matches Some(validators)
                &&& forall|i: int|
                    0 <= i < settings.preferred_validators@.len() ==> validators@.contains(
                        #[trigger] settings.preferred_validators@[i],
                    )
            },
        },
{
    match &facts.conf {
        ConfLoad::Unreadable => Err(StartupError::ConfigUnreadable),
        ConfLoad::Malformed => Err(StartupError::ConfigMalformed),
        ConfLoad::Loaded { conf } => {
            if !facts.key_loaded {
                return Err(StartupError::KeyMaterialUnavailable);
            }
            let signer_balance = match facts.signer_balance {
                None => {
                    return Err(StartupError::LedgerUnreachable);
                },
                Some(balance) => balance,
            };
            match check_fee_balance(signer_balance) {
                Err(e) => {
                    return Err(e);
                },
                Ok(_) => {},
            }
            let pool_address = match parse_pool_address(conf.stake_pool_address.as_str()) {
                Err(e) => {
                    return Err(e);
                },
                Ok(a) => a,
            };
            let validators = match &facts.pool_validators {
                None => {
                    return Err(StartupError::UnknownPool);
                },
                Some(validators) => validators,
            };
            let preferred = match validate_preferred(&conf.preferred_vote_account, validators) {
                Err(e) => {
                    return Err(e);
                },
                Ok(preferred) => preferred,
            };
            proof {
                lemma_resolved_are_members(parsed_all(conf.preferred_vote_account@), validators@, 0);
            }
            Ok(
                Settings {
                    pool_address,
                    left_epoch_threshold: conf.rebalance_left_epoch,
                    preferred_validators: preferred,
                    dry_run: conf.dry_run,
                    loop_interval_seconds: conf.loop_second,
                    disable_rebalance: conf.disable_rebalance,
                    min_stake_balance: MIN_STAKE_BALANCE,
                },
            )
        },
    }
}

/// Where no preferred validator from `from` on has a fault, each of them
/// decoded to an address and is among the pool's validators.
pub proof fn lemma_resolved_are_members(
    decoded: Seq<Option<Address>>,
    validators: Seq<Address>,
    from: int,
)
    requires
        0 <= from <= decoded.len(),
        first_fault_from(decoded, validators, from) is None,
    ensures
        forall|i: int|
            from <= i < decoded.len() ==> (#[trigger] decoded[i]) is Some && validators.contains(
                decoded[i]->0,
            ),
    decreases decoded.len() - from,
{
    if from < decoded.len() {
        lemma_resolved_are_members(decoded, validators, from + 1);
    }
}

} // verus!
