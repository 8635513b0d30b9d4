//! The closed set of contract events this system reacts to. Hashes and
//! addresses are held as their raw bytes; the rest are plain values.
//! Decoding from the chain's log encoding happens in `decode`; how the
//! logs are fetched is outside this crate.

use vstd::prelude::*;

use crate::u256::U256Value;

verus! {

/// A 32-byte hash, as it appears in an event topic or data word.
#[derive(Debug)]
pub struct Bytes32 {
    pub bytes: Vec<u8>,
}

impl Bytes32 {
    /// Exactly thirty-two bytes.
    pub open spec fn wf(&self) -> bool {
        self.bytes@.len() == 32
    }

    /// A hash from its thirty-two bytes.
    pub fn new(bytes: Vec<u8>) -> (r: Bytes32)
        requires
            bytes@.len() == 32,
        ensures
            r.wf(),
            r.bytes@ == bytes@,
    {
        Bytes32 { bytes }
    }
}

/// A 20-byte account address.
#[derive(Debug)]
pub struct Address20 {
    pub bytes: Vec<u8>,
}

impl Address20 {
    /// Exactly twenty bytes.
    pub open spec fn wf(&self) -> bool {
        self.bytes@.len() == 20
    }

    /// An address from its twenty bytes.
    pub fn new(bytes: Vec<u8>) -> (r: Address20)
        requires
            bytes@.len() == 20,
        ensures
            r.wf(),
            r.bytes@ == bytes@,
    {
        Address20 { bytes }
    }
}

/// A new voting poll was created and its synthetic reward contract
/// deployed; the downstream service must activate the poll.
pub struct VotingPollCreated {
    pub version: U256Value,
    pub poll_hash: Bytes32,
    pub voter_storage_hash_location: Bytes32,
    pub candidate_count: Vec<U256Value>,
    pub synthetic_reward_contract: Address20,
}

impl VotingPollCreated {
    pub open spec fn wf(&self) -> bool {
        self.poll_hash.wf() && self.voter_storage_hash_location.wf()
            && self.synthetic_reward_contract.wf()
    }
}

/// A vote was accepted on-chain; the downstream service must record the
/// poll's new voter hash.
pub struct VoteSucceeded {
    pub poll_hash: Bytes32,
    pub selected: u8,
    pub commit_token: U256Value,
    pub new_poll_voter_hash: Bytes32,
    pub voter: Address20,
}

impl VoteSucceeded {
    pub open spec fn wf(&self) -> bool {
        self.poll_hash.wf() && self.new_poll_voter_hash.wf() && self.voter.wf()
    }
}

/// A voter withdrew principal and reward; the downstream service must
/// record the claim.
pub struct WithdrawSucceeded {
    pub poll_hash: Bytes32,
    pub withdrawed_token: U256Value,
    pub withdrawed_reward: U256Value,
    pub voter: Address20,
}

impl WithdrawSucceeded {
    pub open spec fn wf(&self) -> bool {
        self.poll_hash.wf() && self.voter.wf()
    }
}

/// One decoded on-chain event, of any of the three kinds.
pub enum ChainEvent {
    PollCreated(VotingPollCreated),
    VoteCast(VoteSucceeded),
    WithdrawCompleted(WithdrawSucceeded),
}

impl ChainEvent {
    pub open spec fn wf(&self) -> bool {
        match self {
            ChainEvent::PollCreated(ev) => ev.wf(),
            ChainEvent::VoteCast(ev) => ev.wf(),
            ChainEvent::WithdrawCompleted(ev) => ev.wf(),
        }
    }
}

} // verus!
