//! Startup configuration validation and raw-log decoding.

use agaro_relay::config::{build_config, parse_address, ConfigError};
use agaro_relay::decode::{
    decode_poll_created, decode_vote_succeeded, decode_withdraw_succeeded, u256_as_u64,
};
use agaro_relay::u256::U256Value;

#[test]
fn parse_address_accepts_prefixed_and_bare_forms() {
    let with_prefix = format!("0x{}", "deadbeef11".repeat(4));
    let a = parse_address(&with_prefix).expect("prefixed address");
    assert_eq!(a.bytes, [0xde, 0xad, 0xbe, 0xef, 0x11].repeat(4));

    let bare = "deadbeef11".repeat(4);
    let b = parse_address(&bare).expect("bare address");
    assert_eq!(b.bytes, a.bytes);
}

#[test]
fn parse_address_is_case_insensitive() {
    let mixed = format!("0x{}", "DeAdBeEf11".repeat(4));
    let a = parse_address(&mixed).expect("mixed-case address");
    assert_eq!(a.bytes, [0xde, 0xad, 0xbe, 0xef, 0x11].repeat(4));
}

#[test]
fn parse_address_rejects_bad_lengths_and_characters() {
    assert!(parse_address("").is_none());
    assert!(parse_address("0x").is_none());
    assert!(parse_address("0x1234").is_none());
    let too_long = format!("0x{}", "ab".repeat(21));
    assert!(parse_address(&too_long).is_none());
    let bad_char = format!("0x{}zz", "ab".repeat(19));
    assert!(parse_address(&bad_char).is_none());
}

#[test]
fn build_config_reports_each_missing_or_bad_value() {
    let rpc = || Some(String::from("http://node.example"));
    let addr = || Some(format!("0x{}", "ab".repeat(20)));
    let api = || Some(String::from("http://api.example"));

    assert_eq!(
        build_config(None, addr(), api()).unwrap_err(),
        ConfigError::MissingRpcUrl
    );
    assert_eq!(
        build_config(rpc(), None, api()).unwrap_err(),
        ConfigError::MissingContractAddr
    );
    assert_eq!(
        build_config(rpc(), Some(String::from("nonsense")), api()).unwrap_err(),
        ConfigError::InvalidContractAddr
    );
    assert_eq!(
        build_config(rpc(), addr(), None).unwrap_err(),
        ConfigError::MissingApiBaseUrl
    );

    let cfg = build_config(rpc(), addr(), api()).expect("complete configuration");
    assert_eq!(cfg.rpc_url, "http://node.example");
    assert_eq!(cfg.api_base_url, "http://api.example");
    assert_eq!(cfg.contract_addr.bytes, vec![0xab; 20]);
}

fn word_with_value(v: u8) -> Vec<u8> {
    let mut w = vec![0u8; 32];
    w[31] = v;
    w
}

#[test]
fn decode_vote_succeeded_reads_topics_and_data_words() {
    let mut voter_topic = vec![0u8; 12];
    voter_topic.extend(vec![0x22u8; 20]);
    let topics = vec![vec![0u8; 32], vec![0xABu8; 32], voter_topic];
    let mut data = word_with_value(2);
    data.extend(word_with_value(77));
    data.extend(vec![0xCDu8; 32]);
    let ev = decode_vote_succeeded(&topics, &data).expect("well-formed log");
    assert_eq!(ev.poll_hash.bytes, vec![0xAB; 32]);
    assert_eq!(ev.voter.bytes, vec![0x22; 20]);
    assert_eq!(ev.selected, 2);
    assert_eq!(ev.commit_token, U256Value::from_u64(77));
    assert_eq!(ev.new_poll_voter_hash.bytes, vec![0xCD; 32]);
}

#[test]
fn decode_vote_succeeded_rejects_malformed_logs() {
    let mut voter_topic = vec![0u8; 12];
    voter_topic.extend(vec![0x22u8; 20]);
    let topics = vec![vec![0u8; 32], vec![0xABu8; 32], voter_topic.clone()];
    // Data too short.
    assert!(decode_vote_succeeded(&topics, &vec![0u8; 64]).is_none());
    // A selected-option word that does not fit one byte.
    let mut data = vec![1u8; 1];
    data.extend(vec![0u8; 31]);
    data.extend(word_with_value(77));
    data.extend(vec![0xCDu8; 32]);
    assert!(decode_vote_succeeded(&topics, &data).is_none());
    // Too few topics.
    let short = vec![vec![0u8; 32], vec![0xABu8; 32]];
    assert!(decode_vote_succeeded(&short, &vec![0u8; 96]).is_none());
}

#[test]
fn decode_withdraw_succeeded_reads_both_amounts() {
    let mut voter_topic = vec![0u8; 12];
    voter_topic.extend(vec![0x33u8; 20]);
    let topics = vec![vec![0u8; 32], vec![0xEEu8; 32], voter_topic];
    let mut data = word_with_value(100);
    data.extend(word_with_value(5));
    let ev = decode_withdraw_succeeded(&topics, &data).expect("well-formed log");
    assert_eq!(ev.poll_hash.bytes, vec![0xEE; 32]);
    assert_eq!(ev.voter.bytes, vec![0x33; 20]);
    assert_eq!(ev.withdrawed_token, U256Value::from_u64(100));
    assert_eq!(ev.withdrawed_reward, U256Value::from_u64(5));
}

#[test]
fn decode_poll_created_reads_the_candidate_array() {
    let topics = vec![vec![0u8; 32], word_with_value(2), vec![0xAAu8; 32]];
    let mut data = vec![0xCCu8; 32]; // voter storage hash location
    let mut addr_word = vec![0u8; 12];
    addr_word.extend(vec![0x11u8; 20]);
    data.extend(addr_word); // synthetic reward contract
    data.extend(word_with_value(96)); // offset of the array
    data.extend(word_with_value(2)); // its length
    data.extend(word_with_value(10));
    data.extend(word_with_value(20));
    let ev = decode_poll_created(&topics, &data).expect("well-formed log");
    assert_eq!(ev.version, U256Value::from_u64(2));
    assert_eq!(ev.poll_hash.bytes, vec![0xAA; 32]);
    assert_eq!(ev.voter_storage_hash_location.bytes, vec![0xCC; 32]);
    assert_eq!(ev.synthetic_reward_contract.bytes, vec![0x11; 20]);
    assert_eq!(
        ev.candidate_count,
        vec![U256Value::from_u64(10), U256Value::from_u64(20)]
    );
}

#[test]
fn decode_poll_created_accepts_an_empty_candidate_array() {
    let topics = vec![vec![0u8; 32], word_with_value(1), vec![0xAAu8; 32]];
    let mut data = vec![0xCCu8; 32];
    let mut addr_word = vec![0u8; 12];
    addr_word.extend(vec![0x11u8; 20]);
    data.extend(addr_word);
    data.extend(word_with_value(96));
    data.extend(word_with_value(0));
    let ev = decode_poll_created(&topics, &data).expect("empty array log");
    assert!(ev.candidate_count.is_empty());
}

#[test]
fn decode_poll_created_rejects_a_wrong_offset_or_length() {
    let topics = vec![vec![0u8; 32], word_with_value(2), vec![0xAAu8; 32]];
    let mut base = vec![0xCCu8; 32];
    let mut addr_word = vec![0u8; 12];
    addr_word.extend(vec![0x11u8; 20]);
    base.extend(addr_word);

    // Offset word pointing elsewhere than the canonical tail.
    let mut data = base.clone();
    data.extend(word_with_value(128));
    data.extend(word_with_value(0));
    assert!(decode_poll_created(&topics, &data).is_none());

    // Length word disagreeing with the data size.
    let mut data = base.clone();
    data.extend(word_with_value(96));
    data.extend(word_with_value(3));
    data.extend(word_with_value(10));
    assert!(decode_poll_created(&topics, &data).is_none());
}

#[test]
fn u256_values_within_one_word_convert_back() {
    assert_eq!(u256_as_u64(&U256Value::from_u64(96)), Some(96));
    assert_eq!(u256_as_u64(&U256Value::from_words(1, 1, 0, 0)), None);
}
