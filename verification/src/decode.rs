//! Decoding raw contract logs into typed events. A log arrives as its
//! list of 32-byte topics and its data bytes; the layout is the
//! contract ABI's event encoding: indexed fields in the topics, the
//! rest as 32-byte words in the data, a dynamic array as an offset
//! word pointing at a length-prefixed tail. The decoders accept
//! exactly the well-formed logs and are pinned field by field.

use vstd::prelude::*;

use crate::events::{
    Address20, Bytes32, VoteSucceeded, VotingPollCreated, WithdrawSucceeded,
};
use crate::u256::U256Value;

verus! {

/// Two hundred fifty-six to a power.
pub open spec fn pow256(e: nat) -> nat
    decreases e,
{
    if e == 0 {
        1
    } else {
        256 * pow256((e - 1) as nat)
    }
}

/// The value of a byte string read as one big-endian number.
pub open spec fn be_val(bs: Seq<u8>) -> nat
    decreases bs.len(),
{
    if bs.len() == 0 {
        0
    } else {
        (be_val(bs.drop_last()) * 256 + bs.last()) as nat
    }
}

/// Reading a concatenation big-endian: the left part is shifted by a
/// byte position for every byte of the right part.
pub proof fn lemma_be_val_concat(a: Seq<u8>, b: Seq<u8>)
    ensures
        be_val(a + b) == be_val(a) * pow256(b.len() as nat) + be_val(b),
    decreases b.len(),
{
    if b.len() == 0 {
        assert(a + b =~= a);
        assert(pow256(0) == 1);
        assert(be_val(b) == 0);
        assert(be_val(a) * 1 == be_val(a)) by (nonlinear_arith);
    } else {
        let n1 = (b.len() - 1) as nat;
        assert((a + b).drop_last() =~= a + b.drop_last());
        assert((a + b).last() == b.last());
        lemma_be_val_concat(a, b.drop_last());
        assert(be_val(a + b) == be_val(a + b.drop_last()) * 256 + b.last());
        assert((be_val(a) * pow256(n1) + be_val(b.drop_last())) * 256 == be_val(a) * pow256(n1)
            * 256 + be_val(b.drop_last()) * 256) by (nonlinear_arith);
        assert(pow256(b.len() as nat) == 256 * pow256(n1));
        assert(be_val(a) * pow256(n1) * 256 == be_val(a) * (256 * pow256(n1)))
            by (nonlinear_arith);
        assert(be_val(b) == be_val(b.drop_last()) * 256 + b.last());
        assert(be_val(a + b) == (be_val(a) * pow256(n1) + be_val(b.drop_last())) * 256 + b.last());
        assert(be_val(a + b) == be_val(a) * (256 * pow256(n1)) + (be_val(b.drop_last()) * 256
            + b.last()));
        assert(be_val(a + b) == be_val(a) * pow256(b.len() as nat) + be_val(b));
    }
}

/// The `i`-th 32-byte word of a data section.
pub open spec fn word(data: Seq<u8>, i: int) -> Seq<u8> {
    data.subrange(32 * i, 32 * i + 32)
}

/// Reads eight bytes as one big-endian 64-bit word.
fn read_u64_be(data: &Vec<u8>, off: usize) -> (r: u64)
    requires
        off + 8 <= data@.len(),
    ensures
        r == be_val(data@.subrange(off as int, off as int + 8)),
{
    let len = data.len();
    let b0 = data[off] as u64;
    let b1 = data[off + 1] as u64;
    let b2 = data[off + 2] as u64;
    let b3 = data[off + 3] as u64;
    let b4 = data[off + 4] as u64;
    let b5 = data[off + 5] as u64;
    let b6 = data[off + 6] as u64;
    let b7 = data[off + 7] as u64;
    let acc = ((((((b0 * 256 + b1) * 256 + b2) * 256 + b3) * 256 + b4) * 256 + b5) * 256 + b6)
        * 256 + b7;
    proof {
        reveal_with_fuel(be_val, 9);
        let o = off as int;
        let s = data@.subrange(o, o + 8);
        assert(s.drop_last() =~= data@.subrange(o, o + 7));
        assert(data@.subrange(o, o + 7).drop_last() =~= data@.subrange(o, o + 6));
        assert(data@.subrange(o, o + 6).drop_last() =~= data@.subrange(o, o + 5));
        assert(data@.subrange(o, o + 5).drop_last() =~= data@.subrange(o, o + 4));
        assert(data@.subrange(o, o + 4).drop_last() =~= data@.subrange(o, o + 3));
        assert(data@.subrange(o, o + 3).drop_last() =~= data@.subrange(o, o + 2));
        assert(data@.subrange(o, o + 2).drop_last() =~= data@.subrange(o, o + 1));
        assert(data@.subrange(o, o + 1).drop_last() =~= data@.subrange(o, o));
        assert(data@.subrange(o, o).len() == 0);
    }
    acc
}

/// Reads one 32-byte word as a 256-bit amount.
pub fn read_u256_be(data: &Vec<u8>, off: usize) -> (r: U256Value)
    requires
        off + 32 <= data@.len(),
    ensures
        r.val() == be_val(data@.subrange(off as int, off as int + 32)),
{
    let len = data.len();
    let w3 = read_u64_be(data, off);
    let w2 = read_u64_be(data, off + 8);
    let w1 = read_u64_be(data, off + 16);
    let w0 = read_u64_be(data, off + 24);
    let r = U256Value { w0, w1, w2, w3 };
    proof {
        let o = off as int;
        let p3 = data@.subrange(o, o + 8);
        let p2 = data@.subrange(o + 8, o + 16);
        let p1 = data@.subrange(o + 16, o + 24);
        let p0 = data@.subrange(o + 24, o + 32);
        let s = data@.subrange(o, o + 32);
        assert(s =~= ((p3 + p2) + p1) + p0);
        lemma_be_val_concat(p3, p2);
        lemma_be_val_concat(p3 + p2, p1);
        lemma_be_val_concat((p3 + p2) + p1, p0);
        reveal_with_fuel(pow256, 9);
        assert(pow256(8) == 0x10000000000000000);
    }
    r
}

/// Copies `n` bytes starting at `off`.
pub fn bytes_slice(data: &Vec<u8>, off: usize, n: usize) -> (r: Vec<u8>)
    requires
        off + n <= data@.len(),
    ensures
        r@ == data@.subrange(off as int, off as int + n),
{
    let len = data.len();
    let mut r: Vec<u8> = Vec::new();
    let mut j: usize = 0;
    while j < n
        invariant
            len == data@.len(),
            off + n <= len,
            j <= n,
            r@ == data@.subrange(off as int, off as int + j),
        decreases n - j,
    {
        r.push(data[off + j]);
        proof {
            assert(r@ =~= data@.subrange(off as int, off as int + j + 1));
        }
        j = j + 1;
    }
    r
}

/// Whether a byte range holds only zeroes.
fn all_zero(data: &Vec<u8>, off: usize, n: usize) -> (r: bool)
    requires
        off + n <= data@.len(),
    ensures
        r == (forall|j: int| off <= j < off + n ==> data@[j] == 0),
{
    let len = data.len();
    let mut j: usize = 0;
    while j < n
        invariant
            len == data@.len(),
            off + n <= len,
            j <= n,
            forall|i: int| off <= i < off + j ==> data@[i] == 0,
        decreases n - j,
    {
        if data[off + j] != 0 {
            return false;
        }
        j = j + 1;
    }
    true
}

/// Decodes a `VoteSucceeded` log: the poll hash and the voter are the
/// two indexed topics; the data words are the selected option (one
/// byte, zero-padded), the commit token and the new voter hash.
pub fn decode_vote_succeeded(topics: &Vec<Vec<u8>>, data: &Vec<u8>) -> (r: Option<VoteSucceeded>)
    ensures
        r is Some <==> (topics@.len() == 3 && topics@[1]@.len() == 32 && topics@[2]@.len() == 32
            && data@.len() == 96 && (forall|j: int| 0 <= j < 31 ==> data@[j] == 0)),
        r matches Some(e) ==> {
            &&& e.wf()
            &&& e.poll_hash.bytes@ == topics@[1]@
            &&& e.voter.bytes@ == topics@[2]@.subrange(12, 32)
            &&& e.selected == data@[31]
            &&& e.commit_token.val() == be_val(word(data@, 1))
            &&& e.new_poll_voter_hash.bytes@ == word(data@, 2)
        },
{
    if topics.len() != 3 {
        return None;
    }
    if topics[1].len() != 32 || topics[2].len() != 32 {
        return None;
    }
    if data.len() != 96 {
        return None;
    }
    if !all_zero(data, 0, 31) {
        return None;
    }
    let poll_hash = Bytes32::new(bytes_slice(&topics[1], 0, 32));
    let voter = Address20::new(bytes_slice(&topics[2], 12, 20));
    let selected = data[31];
    let commit_token = read_u256_be(data, 32);
    let new_poll_voter_hash = Bytes32::new(bytes_slice(data, 64, 32));
    proof {
        assert(topics@[1]@.subrange(0, 32) =~= topics@[1]@);
        assert(word(data@, 1) =~= data@.subrange(32, 64));
        assert(word(data@, 2) =~= data@.subrange(64, 96));
    }
    Some(VoteSucceeded { poll_hash, selected, commit_token, new_poll_voter_hash, voter })
}

/// Decodes a `WithdrawSucceeded` log: the poll hash and the voter are
/// the two indexed topics; the data words are the withdrawn token and
/// reward amounts.
pub fn decode_withdraw_succeeded(topics: &Vec<Vec<u8>>, data: &Vec<u8>) -> (r: Option<
    WithdrawSucceeded,
>)
    ensures
        r is Some <==> (topics@.len() == 3 && topics@[1]@.len() == 32 && topics@[2]@.len() == 32
            && data@.len() == 64),
        r matches Some(e) ==> {
            &&& e.wf()
            &&& e.poll_hash.bytes@ == topics@[1]@
            &&& e.voter.bytes@ == topics@[2]@.subrange(12, 32)
            &&& e.withdrawed_token.val() == be_val(word(data@, 0))
            &&& e.withdrawed_reward.val() == be_val(word(data@, 1))
        },
{
    if topics.len() != 3 {
        return None;
    }
    if topics[1].len() != 32 || topics[2].len() != 32 {
        return None;
    }
    if data.len() != 64 {
        return None;
    }
    let poll_hash = Bytes32::new(bytes_slice(&topics[1], 0, 32));
    let voter = Address20::new(bytes_slice(&topics[2], 12, 20));
    let withdrawed_token = read_u256_be(data, 0);
    let withdrawed_reward = read_u256_be(data, 32);
    proof {
        assert(topics@[1]@.subrange(0, 32) =~= topics@[1]@);
        assert(word(data@, 0) =~= data@.subrange(0, 32));
        assert(word(data@, 1) =~= data@.subrange(32, 64));
    }
    Some(WithdrawSucceeded { poll_hash, withdrawed_token, withdrawed_reward, voter })
}

/// Decodes a `VotingPollCreated` log: the version and the poll hash
/// are the two indexed topics; the data words are the voter storage
/// hash location, the synthetic reward contract address, and then the
/// candidate-count array as a canonical offset word, a length word and
/// that many elements.
pub fn decode_poll_created(topics: &Vec<Vec<u8>>, data: &Vec<u8>) -> (r: Option<VotingPollCreated>)
    ensures
        r is Some <==> (topics@.len() == 3 && topics@[1]@.len() == 32 && topics@[2]@.len() == 32
            && data@.len() >= 128 && (data@.len() - 128) % 32 == 0 && be_val(word(data@, 2)) == 96
            && be_val(word(data@, 3)) == (data@.len() - 128) / 32),
        r matches Some(e) ==> {
            &&& e.wf()
            &&& e.version.val() == be_val(topics@[1]@)
            &&& e.poll_hash.bytes@ == topics@[2]@
            &&& e.voter_storage_hash_location.bytes@ == word(data@, 0)
            &&& e.synthetic_reward_contract.bytes@ == word(data@, 1).subrange(12, 32)
            &&& e.candidate_count@.len() == (data@.len() - 128) / 32
            &&& (forall|i: int|
                0 <= i < e.candidate_count@.len() ==> (#[trigger] e.candidate_count@[i]).val()
                    == be_val(word(data@, 4 + i)))
        },
{
    if topics.len() != 3 {
        return None;
    }
    if topics[1].len() != 32 || topics[2].len() != 32 {
        return None;
    }
    let len = data.len();
    if len < 128 || (len - 128) % 32 != 0 {
        return None;
    }
    let n_words: usize = (len - 128) / 32;
    let offset_word = read_u256_be(data, 64);
    let count_word = read_u256_be(data, 96);
    proof {
        assert(word(data@, 2) =~= data@.subrange(64, 96));
        assert(word(data@, 3) =~= data@.subrange(96, 128));
    }
    match u256_as_u64(&offset_word) {
        Some(off) => {
            if off != 96 {
                return None;
            }
        },
        None => {
            return None;
        },
    }
    match u256_as_u64(&count_word) {
        Some(cnt) => {
            if cnt != n_words as u64 {
                return None;
            }
        },
        None => {
            return None;
        },
    }
    let version = read_u256_be(&topics[1], 0);
    let poll_hash = Bytes32::new(bytes_slice(&topics[2], 0, 32));
    let voter_storage_hash_location = Bytes32::new(bytes_slice(data, 0, 32));
    let synthetic_reward_contract = Address20::new(bytes_slice(data, 44, 20));
    let mut candidate_count: Vec<U256Value> = Vec::new();
    let mut i: usize = 0;
    while i < n_words
        invariant
            len == data@.len(),
            len >= 128,
            n_words == (len - 128) / 32,
            32 * n_words == len - 128,
            i <= n_words,
            candidate_count@.len() == i,
            forall|j: int|
                0 <= j < i ==> (#[trigger] candidate_count@[j]).val() == be_val(
                    word(data@, 4 + j),
                ),
        decreases n_words - i,
    {
        let v = read_u256_be(data, 128 + 32 * i);
        candidate_count.push(v);
        proof {
            assert(word(data@, 4 + i as int) =~= data@.subrange(
                128 + 32 * (i as int),
                128 + 32 * (i as int) + 32,
            ));
        }
        i = i + 1;
    }
    proof {
        assert(topics@[1]@.subrange(0, 32) =~= topics@[1]@);
        assert(topics@[2]@.subrange(0, 32) =~= topics@[2]@);
        assert(word(data@, 0) =~= data@.subrange(0, 32));
        assert(word(data@, 1).subrange(12, 32) =~= data@.subrange(44, 64));
    }
    Some(
        VotingPollCreated {
            version,
            poll_hash,
            voter_storage_hash_location,
            candidate_count,
            synthetic_reward_contract,
        },
    )
}

/// Whether a 256-bit amount fits one 64-bit word, and its value then.
pub fn u256_as_u64(v: &U256Value) -> (r: Option<u64>)
    ensures
        r is Some <==> v.val() < 0x10000000000000000,
        r matches Some(n) ==> n == v.val(),
{
    if v.w1 == 0 && v.w2 == 0 && v.w3 == 0 {
        Some(v.w0)
    } else {
        None
    }
}

} // verus!
