use serde_json::{Number, Value};
use stake_pool_bot::config::BotConf;

fn example_conf() -> BotConf {
    BotConf {
        solana_config_path: String::from("/home/foo/.config/solana/cli/config.yml"),
        stake_pool_address: String::from("some_pool_address"),
        rebalance_left_epoch: 200,
        preferred_vote_account: vec![
            String::from("preferred_vote_account"),
            String::from("another_vote_account"),
        ],
        dry_run: false,
        loop_second: 60,
        disable_rebalance: false,
    }
}

fn conf_to_json(conf: &BotConf) -> Value {
    let mut fields = serde_json::Map::new();
    fields.insert(
        String::from("solana_config_path"),
        Value::String(conf.solana_config_path.clone()),
    );
    fields.insert(
        String::from("stake_pool_address"),
        Value::String(conf.stake_pool_address.clone()),
    );
    fields.insert(
        String::from("rebalance_left_epoch"),
        Value::Number(Number::from(conf.rebalance_left_epoch)),
    );
    fields.insert(
        String::from("preferred_vote_account"),
        Value::Array(
            conf.preferred_vote_account
                .iter()
                .map(|v| Value::String(v.clone()))
                .collect(),
        ),
    );
    fields.insert(String::from("dry_run"), Value::Bool(conf.dry_run));
    fields.insert(
        String::from("loop_second"),
        Value::Number(Number::from(conf.loop_second)),
    );
    fields.insert(
        String::from("disable_rebalance"),
        Value::Bool(conf.disable_rebalance),
    );
    Value::Object(fields)
}

#[test]
pub fn print_example_conf_json() {
    let conf = example_conf();
    println!("{}", serde_json::to_string_pretty(&conf_to_json(&conf)).unwrap());
}

#[test]
fn example_conf_round_trips_through_json_text() {
    let conf = example_conf();
    let text = serde_json::to_string_pretty(&conf_to_json(&conf)).unwrap();
    let back: Value = serde_json::from_str(&text).unwrap();
    assert_eq!(back["rebalance_left_epoch"].as_u64(), Some(200));
    assert_eq!(back["loop_second"].as_u64(), Some(60));
    assert_eq!(back["dry_run"].as_bool(), Some(false));
    assert_eq!(back["disable_rebalance"].as_bool(), Some(false));
    assert_eq!(
        back["solana_config_path"].as_str(),
        Some("/home/foo/.config/solana/cli/config.yml")
    );
    assert_eq!(back["stake_pool_address"].as_str(), Some("some_pool_address"));
    let preferred = back["preferred_vote_account"].as_array().unwrap();
    assert_eq!(preferred.len(), 2);
    assert_eq!(preferred[0].as_str(), Some("preferred_vote_account"));
    assert_eq!(preferred[1].as_str(), Some("another_vote_account"));
}

#[test]
fn conf_keeps_the_order_of_preferred_validators() {
    let conf = example_conf();
    assert_eq!(conf.preferred_vote_account[0], "preferred_vote_account");
    assert_eq!(conf.preferred_vote_account[1], "another_vote_account");
    assert_eq!(conf.clone(), conf);
}

#[test]
fn example_conf_prints_its_fields_in_declared_order() {
    let text = serde_json::to_string_pretty(&conf_to_json(&example_conf())).unwrap();
    let keys = [
        "\"solana_config_path\"",
        "\"stake_pool_address\"",
        "\"rebalance_left_epoch\"",
        "\"preferred_vote_account\"",
        "\"dry_run\"",
        "\"loop_second\"",
        "\"disable_rebalance\"",
    ];
    let mut last = 0;
    for key in keys {
        let at = text.find(key).unwrap();
        assert!(at >= last);
        last = at;
    }
}
