//! The per-kind deterministic mapping from one decoded event to the one
//! outbound HTTP request that relays it. The method, the URL and the
//! JSON body are pinned, character for character, by the contracts.

use vstd::prelude::*;

use crate::events::{ChainEvent, VoteSucceeded, VotingPollCreated, WithdrawSucceeded};
use crate::hexfmt::{append_hex, dec_of, hex_of_bytes};
use crate::u256::append_u256_dec;
use vstd::string::*;

verus! {

/// The HTTP method of an outbound call.
#[derive(Clone, Copy, PartialEq, Eq, Structural, Debug)]
pub enum HttpMethod {
    Post,
    Put,
}

/// One outbound HTTP request descriptor: derived once per event, reused
/// unchanged by every retry attempt.
pub struct RelayRequest {
    pub method: HttpMethod,
    pub url: String,
    pub body: String,
}

/// URL of the poll-activation endpoint.
pub open spec fn spec_activate_url(base: Seq<char>) -> Seq<char> {
    base + "/polls/activate"@
}

/// Body of the poll-activation call.
pub open spec fn spec_activate_body(poll_hash: Seq<u8>, reward_contract: Seq<u8>) -> Seq<char> {
    "{\"pollHash\":\"0x"@ + hex_of_bytes(poll_hash) + "\",\"syntheticRewardContractAddress\":\"0x"@
        + hex_of_bytes(reward_contract) + "\"}"@
}

/// URL of the voter-hash update endpoint for one poll.
pub open spec fn spec_update_voter_hash_url(base: Seq<char>, poll_hash: Seq<u8>) -> Seq<char> {
    base + "/polls/0x"@ + hex_of_bytes(poll_hash) + "/update-voter-hash"@
}

/// Body of the voter-hash update call.
pub open spec fn spec_update_voter_hash_body(voter_hash: Seq<u8>) -> Seq<char> {
    "{\"voterHash\":\"0x"@ + hex_of_bytes(voter_hash) + "\"}"@
}

/// URL of the reward-claim endpoint.
pub open spec fn spec_claim_url(base: Seq<char>) -> Seq<char> {
    base + "/rewards/claim"@
}

/// Body of the reward-claim call.
pub open spec fn spec_claim_body(
    poll_hash: Seq<u8>,
    principal: nat,
    reward: nat,
    voter: Seq<u8>,
) -> Seq<char> {
    "{\"pollHash\":\"0x"@ + hex_of_bytes(poll_hash) + "\",\"principalAmount\":\""@ + dec_of(
        principal,
    ) + "\",\"rewardAmount\":\""@ + dec_of(reward) + "\",\"voterWalletAddress\":\"0x"@
        + hex_of_bytes(voter) + "\"}"@
}

/// The request that activates a freshly created poll.
pub fn poll_created_request(api_base: &str, ev: &VotingPollCreated) -> (r: RelayRequest)
    ensures
        r.method == HttpMethod::Post,
        r.url@ == spec_activate_url(api_base@),
        r.body@ == spec_activate_body(ev.poll_hash.bytes@, ev.synthetic_reward_contract.bytes@),
{
    let mut url = String::new();
    url.append(api_base);
    url.append("/polls/activate");
    let mut body = String::new();
    body.append("{\"pollHash\":\"0x");
    append_hex(&mut body, &ev.poll_hash.bytes);
    body.append("\",\"syntheticRewardContractAddress\":\"0x");
    append_hex(&mut body, &ev.synthetic_reward_contract.bytes);
    body.append("\"}");
    proof {
        assert(url@ =~= spec_activate_url(api_base@));
        assert(body@ =~= spec_activate_body(
            ev.poll_hash.bytes@,
            ev.synthetic_reward_contract.bytes@,
        ));
    }
    RelayRequest { method: HttpMethod::Post, url, body }
}

/// The request that records a poll's new voter hash after a vote.
pub fn vote_succeeded_request(api_base: &str, ev: &VoteSucceeded) -> (r: RelayRequest)
    ensures
        r.method == HttpMethod::Put,
        r.url@ == spec_update_voter_hash_url(api_base@, ev.poll_hash.bytes@),
        r.body@ == spec_update_voter_hash_body(ev.new_poll_voter_hash.bytes@),
{
    let mut url = String::new();
    url.append(api_base);
    url.append("/polls/0x");
    append_hex(&mut url, &ev.poll_hash.bytes);
    url.append("/update-voter-hash");
    let mut body = String::new();
    body.append("{\"voterHash\":\"0x");
    append_hex(&mut body, &ev.new_poll_voter_hash.bytes);
    body.append("\"}");
    proof {
        assert(url@ =~= spec_update_voter_hash_url(api_base@, ev.poll_hash.bytes@));
        assert(body@ =~= spec_update_voter_hash_body(ev.new_poll_voter_hash.bytes@));
    }
    RelayRequest { method: HttpMethod::Put, url, body }
}

/// The request that records a completed withdrawal claim.
pub fn withdraw_succeeded_request(api_base: &str, ev: &WithdrawSucceeded) -> (r: RelayRequest)
    ensures
        r.method == HttpMethod::Put,
        r.url@ == spec_claim_url(api_base@),
        r.body@ == spec_claim_body(
            ev.poll_hash.bytes@,
            ev.withdrawed_token.val(),
            ev.withdrawed_reward.val(),
            ev.voter.bytes@,
        ),
{
    let mut url = String::new();
    url.append(api_base);
    url.append("/rewards/claim");
    let mut body = String::new();
    body.append("{\"pollHash\":\"0x");
    append_hex(&mut body, &ev.poll_hash.bytes);
    body.append("\",\"principalAmount\":\"");
    append_u256_dec(&mut body, &ev.withdrawed_token);
    body.append("\",\"rewardAmount\":\"");
    append_u256_dec(&mut body, &ev.withdrawed_reward);
    body.append("\",\"voterWalletAddress\":\"0x");
    append_hex(&mut body, &ev.voter.bytes);
    body.append("\"}");
    proof {
        assert(url@ =~= spec_claim_url(api_base@));
        assert(body@ =~= spec_claim_body(
            ev.poll_hash.bytes@,
            ev.withdrawed_token.val(),
            ev.withdrawed_reward.val(),
            ev.voter.bytes@,
        ));
    }
    RelayRequest { method: HttpMethod::Put, url, body }
}

/// The method, URL and body that relay one event, by its kind.
pub open spec fn spec_relay_request(base: Seq<char>, ev: ChainEvent) -> (HttpMethod, Seq<
    char,
>, Seq<char>) {
    match ev {
        ChainEvent::PollCreated(e) => (
            HttpMethod::Post,
            spec_activate_url(base),
            spec_activate_body(e.poll_hash.bytes@, e.synthetic_reward_contract.bytes@),
        ),
        ChainEvent::VoteCast(e) => (
            HttpMethod::Put,
            spec_update_voter_hash_url(base, e.poll_hash.bytes@),
            spec_update_voter_hash_body(e.new_poll_voter_hash.bytes@),
        ),
        ChainEvent::WithdrawCompleted(e) => (
            HttpMethod::Put,
            spec_claim_url(base),
            spec_claim_body(
                e.poll_hash.bytes@,
                e.withdrawed_token.val(),
                e.withdrawed_reward.val(),
                e.voter.bytes@,
            ),
        ),
    }
}

/// Derives the one request that relays `ev`. Every event of a given
/// kind maps through the same fixed method, path and body shape.
pub fn to_relay_request(api_base: &str, ev: &ChainEvent) -> (r: RelayRequest)
    ensures
        (r.method, r.url@, r.body@) == spec_relay_request(api_base@, *ev),
{
    match ev {
        ChainEvent::PollCreated(e) => poll_created_request(api_base, e),
        ChainEvent::VoteCast(e) => vote_succeeded_request(api_base, e),
        ChainEvent::WithdrawCompleted(e) => withdraw_succeeded_request(api_base, e),
    }
}

} // verus!
