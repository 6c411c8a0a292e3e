use solana_program::pubkey::Pubkey;
use stake_pool_bot::address::Address;
use stake_pool_bot::config::{BotConf, Settings};
use stake_pool_bot::startup::{
    check_fee_balance, is_member, parse_address, parse_all, parse_pool_address,
    resolve_preferred, validate_preferred, validate_startup, ConfLoad, StartupError,
    StartupFacts, MIN_FEE_BALANCE,
};

fn key(n: u8) -> Address {
    Address::from_bytes([n; 32])
}

fn text_of(a: &Address) -> String {
    Pubkey::new_from_array(a.bytes).to_string()
}

fn conf(pool: &str, preferred: Vec<String>) -> BotConf {
    BotConf {
        solana_config_path: String::from("/home/foo/.config/solana/cli/config.yml"),
        stake_pool_address: String::from(pool),
        rebalance_left_epoch: 200,
        preferred_vote_account: preferred,
        dry_run: true,
        loop_second: 60,
        disable_rebalance: false,
    }
}

fn good_facts() -> StartupFacts {
    StartupFacts {
        conf: ConfLoad::Loaded {
            conf: conf(&text_of(&key(42)), vec![text_of(&key(2)), text_of(&key(1))]),
        },
        key_loaded: true,
        signer_balance: Some(MIN_FEE_BALANCE),
        pool_validators: Some(vec![key(1), key(2), key(3)]),
    }
}

#[test]
fn address_text_decodes_to_its_bytes() {
    assert_eq!(parse_address("11111111111111111111111111111111"), Some(Address::from_bytes([0; 32])));
    assert_eq!(
        parse_address("SPoo1xuN9wGpxNjGnPNbRPtpQ7mHgKM8d9BeFC549Jy"),
        Some(Address::from_bytes(spl_stake_pool::id().to_bytes()))
    );
    for n in [1u8, 7, 200, 255] {
        assert_eq!(parse_address(&text_of(&key(n))), Some(key(n)));
    }
}

#[test]
fn address_text_that_is_no_address_is_refused() {
    assert_eq!(parse_address("some_pool_address"), None);
    assert_eq!(parse_address("preferred_vote_account"), None);
    assert_eq!(parse_address(""), None);
    assert_eq!(parse_address("1111111111111111111111111111111"), None);
    assert_eq!(parse_address("111111111111111111111111111111111"), None);
    assert_eq!(parse_address("SPoo1xuN9wGpxNjGnPNbRPtpQ7mHgKM8d9BeFC549Jy1111"), None);
    assert_eq!(parse_address("SPoo1xuN9wGpxNjGnPNbRPtpQ7mHgKM8d9BeFC549J0"), None);
}

#[test]
fn pool_address_is_parsed_or_reported_invalid() {
    assert_eq!(parse_pool_address(&text_of(&key(42))), Ok(key(42)));
    assert_eq!(parse_pool_address("some_pool_address"), Err(StartupError::InvalidPoolAddress));
}

#[test]
fn fee_balance_must_reach_a_thousandth_of_a_coin() {
    assert_eq!(MIN_FEE_BALANCE, 1_000_000);
    assert_eq!(check_fee_balance(0), Err(StartupError::InsufficientFeeBalance));
    assert_eq!(check_fee_balance(999_999), Err(StartupError::InsufficientFeeBalance));
    assert_eq!(check_fee_balance(1_000_000), Ok(()));
    assert_eq!(check_fee_balance(u64::MAX), Ok(()));
}

#[test]
fn membership_is_by_address() {
    let validators = vec![key(1), key(2), key(3)];
    assert!(is_member(&validators, &key(1)));
    assert!(is_member(&validators, &key(3)));
    assert!(!is_member(&validators, &key(4)));
    assert!(!is_member(&Vec::new(), &key(1)));
}

#[test]
fn preferred_validators_resolve_in_configured_order() {
    let validators = vec![key(1), key(2), key(3)];
    let decoded = vec![Some(key(3)), Some(key(1)), Some(key(3))];
    assert_eq!(resolve_preferred(&decoded, &validators), Ok(vec![key(3), key(1), key(3)]));
    assert_eq!(resolve_preferred(&Vec::new(), &validators), Ok(Vec::new()));
}

#[test]
fn preferred_validators_fail_at_the_first_fault() {
    let validators = vec![key(1), key(2), key(3)];
    let decoded = vec![Some(key(1)), None, Some(key(9))];
    assert_eq!(
        resolve_preferred(&decoded, &validators),
        Err(StartupError::InvalidVoteAddress { index: 1 })
    );
    let decoded = vec![Some(key(1)), Some(key(9)), None];
    assert_eq!(
        resolve_preferred(&decoded, &validators),
        Err(StartupError::ValidatorNotInPool { index: 1 })
    );
    let decoded = vec![Some(key(1))];
    assert_eq!(
        resolve_preferred(&decoded, &Vec::new()),
        Err(StartupError::ValidatorNotInPool { index: 0 })
    );
}

#[test]
fn preferred_validator_texts_are_decoded_one_by_one() {
    let texts = vec![text_of(&key(5)), String::from("another_vote_account"), text_of(&key(6))];
    assert_eq!(parse_all(&texts), vec![Some(key(5)), None, Some(key(6))]);
    assert_eq!(parse_all(&Vec::new()), Vec::new());
}

#[test]
fn preferred_validator_texts_are_validated_against_the_pool() {
    let validators = vec![key(1), key(2), key(3)];
    let texts = vec![text_of(&key(2)), text_of(&key(1))];
    assert_eq!(validate_preferred(&texts, &validators), Ok(vec![key(2), key(1)]));
    let texts = vec![text_of(&key(2)), String::from("another_vote_account")];
    assert_eq!(
        validate_preferred(&texts, &validators),
        Err(StartupError::InvalidVoteAddress { index: 1 })
    );
    let texts = vec![text_of(&key(8)), text_of(&key(1))];
    assert_eq!(
        validate_preferred(&texts, &validators),
        Err(StartupError::ValidatorNotInPool { index: 0 })
    );
}

#[test]
fn startup_builds_the_settings_from_the_configuration() {
    assert_eq!(
        validate_startup(&good_facts()),
        Ok(Settings {
            pool_address: key(42),
            left_epoch_threshold: 200,
            preferred_validators: vec![key(2), key(1)],
            dry_run: true,
            loop_interval_seconds: 60,
            disable_rebalance: false,
            min_stake_balance: 1_000_000_000,
        })
    );
}

#[test]
fn startup_accepts_an_empty_list_of_preferred_validators() {
    let mut facts = good_facts();
    facts.conf = ConfLoad::Loaded { conf: conf(&text_of(&key(42)), Vec::new()) };
    let settings = validate_startup(&facts).unwrap();
    assert!(settings.preferred_validators.is_empty());
}

#[test]
fn startup_fails_on_an_unreadable_configuration() {
    let mut facts = good_facts();
    facts.conf = ConfLoad::Unreadable;
    assert_eq!(validate_startup(&facts), Err(StartupError::ConfigUnreadable));
}

#[test]
fn startup_fails_on_a_malformed_configuration() {
    let mut facts = good_facts();
    facts.conf = ConfLoad::Malformed;
    assert_eq!(validate_startup(&facts), Err(StartupError::ConfigMalformed));
}

#[test]
fn startup_fails_without_the_signers_key() {
    let mut facts = good_facts();
    facts.key_loaded = false;
    assert_eq!(validate_startup(&facts), Err(StartupError::KeyMaterialUnavailable));
}

#[test]
fn startup_fails_when_the_ledger_cannot_be_reached() {
    let mut facts = good_facts();
    facts.signer_balance = None;
    assert_eq!(validate_startup(&facts), Err(StartupError::LedgerUnreachable));
}

#[test]
fn startup_fails_on_a_signer_that_cannot_pay_fees() {
    let mut facts = good_facts();
    facts.signer_balance = Some(MIN_FEE_BALANCE - 1);
    assert_eq!(validate_startup(&facts), Err(StartupError::InsufficientFeeBalance));
}

#[test]
fn startup_fails_on_an_invalid_pool_address() {
    let mut facts = good_facts();
    facts.conf = ConfLoad::Loaded { conf: conf("some_pool_address", vec![text_of(&key(1))]) };
    assert_eq!(validate_startup(&facts), Err(StartupError::InvalidPoolAddress));
}

#[test]
fn startup_fails_on_an_unknown_pool() {
    let mut facts = good_facts();
    facts.pool_validators = None;
    assert_eq!(validate_startup(&facts), Err(StartupError::UnknownPool));
}

#[test]
fn startup_fails_on_an_invalid_vote_address() {
    let mut facts = good_facts();
    facts.conf = ConfLoad::Loaded {
        conf: conf(
            &text_of(&key(42)),
            vec![text_of(&key(1)), String::from("preferred_vote_account")],
        ),
    };
    assert_eq!(validate_startup(&facts), Err(StartupError::InvalidVoteAddress { index: 1 }));
}

#[test]
fn startup_fails_on_a_validator_outside_the_pool() {
    let mut facts = good_facts();
    facts.conf = ConfLoad::Loaded {
        conf: conf(&text_of(&key(42)), vec![text_of(&key(9)), text_of(&key(1))]),
    };
    assert_eq!(validate_startup(&facts), Err(StartupError::ValidatorNotInPool { index: 0 }));
}

#[test]
fn startup_reports_the_earliest_failed_check() {
    let mut facts = good_facts();
    facts.conf = ConfLoad::Loaded { conf: conf("some_pool_address", vec![String::from("x")]) };
    facts.pool_validators = None;
    assert_eq!(validate_startup(&facts), Err(StartupError::InvalidPoolAddress));
    facts.signer_balance = Some(0);
    assert_eq!(validate_startup(&facts), Err(StartupError::InsufficientFeeBalance));
    facts.signer_balance = None;
    assert_eq!(validate_startup(&facts), Err(StartupError::LedgerUnreachable));
    facts.key_loaded = false;
    assert_eq!(validate_startup(&facts), Err(StartupError::KeyMaterialUnavailable));
    facts.conf = ConfLoad::Malformed;
    assert_eq!(validate_startup(&facts), Err(StartupError::ConfigMalformed));
}

#[test]
fn startup_errors_have_their_texts() {
    assert_eq!(StartupError::ConfigUnreadable.message(), "unable to read the configuration");
    assert_eq!(StartupError::ConfigMalformed.message(), "unable to parse the configuration");
    assert_eq!(StartupError::KeyMaterialUnavailable.message(), "unable to load the signer's key");
    assert_eq!(StartupError::LedgerUnreachable.message(), "unable to read the signer's account");
    assert_eq!(
        StartupError::InsufficientFeeBalance.message(),
        "signer balance too low to pay fees"
    );
    assert_eq!(StartupError::InvalidPoolAddress.message(), "invalid stake pool address");
    assert_eq!(StartupError::UnknownPool.message(), "no stake pool at the configured address");
    assert_eq!(StartupError::InvalidVoteAddress { index: 3 }.message(), "invalid vote address");
    assert_eq!(
        StartupError::ValidatorNotInPool { index: 3 }.message(),
        "configured vote address not in stake pool"
    );
}
