use vstd::prelude::*;

use crate::account::AccountAddress;
use crate::encoding::{bytes_enc, copy_bytes, push_bytes, push_u64, u64_be};
use crate::validator_set::Signature;

verus! {

/// First byte of the bytes signed for a block proposal.
pub const BLOCK_DOMAIN: u8 = 3;

/// First byte of the bytes signed for a vote.
pub const VOTE_DOMAIN: u8 = 4;

/// First byte of the bytes signed for a timeout.
pub const TIMEOUT_DOMAIN: u8 = 5;

/// First byte of the bytes signed for a two-chain timeout.
pub const TWO_CHAIN_TIMEOUT_DOMAIN: u8 = 6;

/// What a quorum certificate certifies: a block's round, its id, and the round
/// of that block's own parent.
#[derive(Clone, Debug, PartialEq, Eq)]
pub struct QuorumCert {
    pub certified_round: u64,
    pub certified_id: Vec<u8>,
    pub parent_round: u64,
}

/// A proposed block: it extends the block that its quorum certificate certifies.
#[derive(Clone, Debug, PartialEq, Eq)]
pub struct BlockData {
    pub epoch: u64,
    pub round: u64,
    pub author: AccountAddress,
    pub id: Vec<u8>,
    pub quorum_cert: QuorumCert,
}

/// A block that the driver asks this validator to vote for.
#[derive(Clone, Debug, PartialEq, Eq)]
pub struct VoteProposal {
    pub block: BlockData,
}

/// What a vote attests: the block voted for and the round of its parent.
#[derive(Clone, Debug, PartialEq, Eq)]
pub struct VoteData {
    pub epoch: u64,
    pub round: u64,
    pub block_id: Vec<u8>,
    pub parent_round: u64,
}

/// A signed vote.
#[derive(Clone, Debug, PartialEq, Eq)]
pub struct Vote {
    pub vote_data: VoteData,
    pub author: AccountAddress,
    pub signature: Signature,
}

/// A timeout for a round.
#[derive(Clone, Copy, Debug, PartialEq, Eq, Structural)]
pub struct Timeout {
    pub epoch: u64,
    pub round: u64,
}

/// A timeout for a round, carrying the round of the highest quorum certificate seen.
#[derive(Clone, Copy, Debug, PartialEq, Eq, Structural)]
pub struct TwoChainTimeout {
    pub epoch: u64,
    pub round: u64,
    pub hqc_round: u64,
}

/// A quorum of timeouts for a round, with the highest certified round among them.
#[derive(Clone, Copy, Debug, PartialEq, Eq, Structural)]
pub struct TwoChainTimeoutCertificate {
    pub epoch: u64,
    pub round: u64,
    pub highest_hqc_round: u64,
}

/// The bytes signed for a block proposal.
pub open spec fn block_enc(b: BlockData) -> Seq<u8> {
    seq![BLOCK_DOMAIN] + u64_be(b.epoch) + u64_be(b.round) + u64_be((b.author.0 >> 64u128) as u64)
        + u64_be(b.author.0 as u64) + bytes_enc(b.id@) + u64_be(b.quorum_cert.certified_round)
        + bytes_enc(b.quorum_cert.certified_id@) + u64_be(b.quorum_cert.parent_round)
}

/// The bytes signed for a vote.
pub open spec fn vote_data_enc(v: VoteData) -> Seq<u8> {
    seq![VOTE_DOMAIN] + u64_be(v.epoch) + u64_be(v.round) + bytes_enc(v.block_id@) + u64_be(
        v.parent_round,
    )
}

/// The bytes signed for a timeout.
pub open spec fn timeout_enc(t: Timeout) -> Seq<u8> {
    seq![TIMEOUT_DOMAIN] + u64_be(t.epoch) + u64_be(t.round)
}

/// The bytes signed for a two-chain timeout.
pub open spec fn two_chain_timeout_enc(t: TwoChainTimeout) -> Seq<u8> {
    seq![TWO_CHAIN_TIMEOUT_DOMAIN] + u64_be(t.epoch) + u64_be(t.round) + u64_be(t.hqc_round)
}

/// The vote data for block `b`.
pub open spec fn vote_data_of(v: VoteData, b: BlockData) -> bool {
    &&& v.epoch == b.epoch
    &&& v.round == b.round
    &&& v.block_id@ == b.id@
    &&& v.parent_round == b.quorum_cert.certified_round
}

impl BlockData {
    /// The bytes signed for this block.
    pub fn signing_bytes(&self) -> (r: Vec<u8>)
        ensures
            r@ == block_enc(*self),
    {
        let mut out: Vec<u8> = Vec::new();
        out.push(BLOCK_DOMAIN);
        push_u64(&mut out, self.epoch);
        push_u64(&mut out, self.round);
        push_u64(&mut out, (self.author.0 >> 64u128) as u64);
        push_u64(&mut out, self.author.0 as u64);
        push_bytes(&mut out, &self.id);
        push_u64(&mut out, self.quorum_cert.certified_round);
        push_bytes(&mut out, &self.quorum_cert.certified_id);
        push_u64(&mut out, self.quorum_cert.parent_round);
        assert(out@ =~= block_enc(*self));
        out
    }

    /// The data of a vote for this block.
    pub fn vote_data(&self) -> (r: VoteData)
        ensures
            vote_data_of(r, *self),
    {
        VoteData {
            epoch: self.epoch,
            round: self.round,
            block_id: copy_bytes(&self.id),
            parent_round: self.quorum_cert.certified_round,
        }
    }
}

impl VoteData {
    /// The bytes signed for this vote.
    pub fn signing_bytes(&self) -> (r: Vec<u8>)
        ensures
            r@ == vote_data_enc(*self),
    {
        let mut out: Vec<u8> = Vec::new();
        out.push(VOTE_DOMAIN);
        push_u64(&mut out, self.epoch);
        push_u64(&mut out, self.round);
        push_bytes(&mut out, &self.block_id);
        push_u64(&mut out, self.parent_round);
        assert(out@ =~= vote_data_enc(*self));
        out
    }
}

impl Timeout {
    /// The bytes signed for this timeout.
    pub fn signing_bytes(&self) -> (r: Vec<u8>)
        ensures
            r@ == timeout_enc(*self),
    {
        let mut out: Vec<u8> = Vec::new();
        out.push(TIMEOUT_DOMAIN);
        push_u64(&mut out, self.epoch);
        push_u64(&mut out, self.round);
        assert(out@ =~= timeout_enc(*self));
        out
    }
}

impl TwoChainTimeout {
    /// The bytes signed for this timeout.
    pub fn signing_bytes(&self) -> (r: Vec<u8>)
        ensures
            r@ == two_chain_timeout_enc(*self),
    {
        let mut out: Vec<u8> = Vec::new();
        out.push(TWO_CHAIN_TIMEOUT_DOMAIN);
        push_u64(&mut out, self.epoch);
        push_u64(&mut out, self.round);
        push_u64(&mut out, self.hqc_round);
        assert(out@ =~= two_chain_timeout_enc(*self));
        out
    }
}

} // verus!
