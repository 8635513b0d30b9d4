//! The event-to-request mapping, held to the exact method, path and
//! body for each event kind.

use agaro_relay::events::{
    Address20, Bytes32, ChainEvent, VoteSucceeded, VotingPollCreated, WithdrawSucceeded,
};
use agaro_relay::request::{
    poll_created_request, to_relay_request, vote_succeeded_request, withdraw_succeeded_request,
    HttpMethod,
};
use agaro_relay::u256::{u256_decimal_string, U256Value};

fn poll_created_event() -> VotingPollCreated {
    VotingPollCreated {
        version: U256Value::from_u64(1),
        poll_hash: Bytes32::new(vec![0xAA; 32]),
        voter_storage_hash_location: Bytes32::new(vec![0xBB; 32]),
        candidate_count: vec![U256Value::from_u64(2), U256Value::from_u64(3)],
        synthetic_reward_contract: Address20::new(vec![0x11; 20]),
    }
}

#[test]
fn poll_created_maps_to_activate_post() {
    let ev = poll_created_event();
    let req = poll_created_request("http://api.example", &ev);
    assert_eq!(req.method, HttpMethod::Post);
    assert_eq!(req.url, "http://api.example/polls/activate");
    let expected_body = format!(
        "{{\"pollHash\":\"0x{}\",\"syntheticRewardContractAddress\":\"0x{}\"}}",
        "aa".repeat(32),
        "11".repeat(20),
    );
    assert_eq!(req.body, expected_body);
}

#[test]
fn vote_succeeded_maps_to_update_voter_hash_put() {
    let ev = VoteSucceeded {
        poll_hash: Bytes32::new(vec![0xAB; 32]),
        selected: 2,
        commit_token: U256Value::from_u64(77),
        new_poll_voter_hash: Bytes32::new(vec![0xCD; 32]),
        voter: Address20::new(vec![0x22; 20]),
    };
    let req = vote_succeeded_request("http://api.example", &ev);
    assert_eq!(req.method, HttpMethod::Put);
    let expected_url = format!(
        "http://api.example/polls/0x{}/update-voter-hash",
        "ab".repeat(32)
    );
    assert_eq!(req.url, expected_url);
    let expected_body = format!("{{\"voterHash\":\"0x{}\"}}", "cd".repeat(32));
    assert_eq!(req.body, expected_body);
}

#[test]
fn withdraw_succeeded_maps_to_claim_put_with_decimal_amounts() {
    let ev = WithdrawSucceeded {
        poll_hash: Bytes32::new(vec![0xEF; 32]),
        // 2^64, so the amount does not fit one word and the decimal
        // rendering must not lose precision.
        withdrawed_token: U256Value::from_words(0, 1, 0, 0),
        withdrawed_reward: U256Value::from_u64(12345678901234567890),
        voter: Address20::new(vec![0x33; 20]),
    };
    let req = withdraw_succeeded_request("http://api.example", &ev);
    assert_eq!(req.method, HttpMethod::Put);
    assert_eq!(req.url, "http://api.example/rewards/claim");
    let expected_body = format!(
        "{{\"pollHash\":\"0x{}\",\"principalAmount\":\"18446744073709551616\",\"rewardAmount\":\"12345678901234567890\",\"voterWalletAddress\":\"0x{}\"}}",
        "ef".repeat(32),
        "33".repeat(20),
    );
    assert_eq!(req.body, expected_body);
}

#[test]
fn to_relay_request_dispatches_by_kind() {
    let ev = ChainEvent::PollCreated(poll_created_event());
    let req = to_relay_request("http://api.example", &ev);
    assert_eq!(req.method, HttpMethod::Post);
    assert_eq!(req.url, "http://api.example/polls/activate");
}

#[test]
fn decimal_rendering_of_zero_and_small_values() {
    assert_eq!(u256_decimal_string(&U256Value::from_u64(0)), "0");
    assert_eq!(u256_decimal_string(&U256Value::from_u64(7)), "7");
    assert_eq!(u256_decimal_string(&U256Value::from_u64(10)), "10");
    assert_eq!(u256_decimal_string(&U256Value::from_u64(90125)), "90125");
}

#[test]
fn decimal_rendering_of_wide_values() {
    // 2^128 in decimal.
    assert_eq!(
        u256_decimal_string(&U256Value::from_words(0, 0, 1, 0)),
        "340282366920938463463374607431768211456"
    );
    // The largest 256-bit value.
    assert_eq!(
        u256_decimal_string(&U256Value::from_words(
            u64::MAX,
            u64::MAX,
            u64::MAX,
            u64::MAX
        )),
        "115792089237316195423570985008687907853269984665640564039457584007913129639935"
    );
}
