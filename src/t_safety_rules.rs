use vstd::prelude::*;

use crate::consensus_types::{
    BlockData, Timeout, TwoChainTimeout, TwoChainTimeoutCertificate, Vote, VoteProposal,
};
use crate::epoch_change::EpochChangeProof;
use crate::error::Error;
use crate::ledger_info::{LedgerInfo, LedgerInfoWithSignatures};
use crate::safety_data::ConsensusState;
use crate::safety_rules::{self as engine, tc_of, SafetyRules};
use crate::validator_set::Signature;

verus! {

/// The interface through which the consensus driver reaches a safety rules
/// engine, wherever the engine runs. Each operation comes with a relation
/// between the state before, the state after and the result, which every
/// implementation states for itself and meets.
pub trait TSafetyRules: Sized {
    /// What `consensus_state` returns, and the state it leaves.
    spec fn state_post(self, new: Self, r: Result<ConsensusState, Error>) -> bool;

    /// What `initialize` with `proof` returns, and the state it leaves.
    spec fn initialize_post(self, new: Self, proof: EpochChangeProof, r: Result<(), Error>) -> bool;

    /// What `sign_proposal` returns, and the state it leaves.
    spec fn proposal_post(self, new: Self, block_data: BlockData, r: Result<Signature, Error>) -> bool;

    /// What `sign_timeout` returns, and the state it leaves.
    spec fn timeout_post(self, new: Self, timeout: Timeout, r: Result<Signature, Error>) -> bool;

    /// What `sign_timeout_with_qc` returns, and the state it leaves.
    spec fn timeout_with_qc_post(
        self,
        new: Self,
        timeout: TwoChainTimeout,
        tc: Option<TwoChainTimeoutCertificate>,
        r: Result<Signature, Error>,
    ) -> bool;

    /// What `construct_and_sign_vote` returns, and the state it leaves.
    spec fn vote_post(self, new: Self, proposal: VoteProposal, r: Result<Vote, Error>) -> bool;

    /// What `construct_and_sign_vote_two_chain` returns, and the state it leaves.
    spec fn vote_two_chain_post(
        self,
        new: Self,
        proposal: VoteProposal,
        tc: Option<TwoChainTimeoutCertificate>,
        r: Result<Vote, Error>,
    ) -> bool;

    /// What `sign_commit_vote` returns, and the state it leaves.
    spec fn commit_post(
        self,
        new: Self,
        ledger_info: LedgerInfoWithSignatures,
        new_ledger_info: LedgerInfo,
        r: Result<Signature, Error>,
    ) -> bool;

    /// A snapshot of the engine's state.
    fn consensus_state(&mut self) -> (r: Result<ConsensusState, Error>)
        ensures
            old(self).state_post(*final(self), r),
    ;

    /// Moves the engine to the epoch that `proof` ends in.
    fn initialize(&mut self, proof: &EpochChangeProof) -> (r: Result<(), Error>)
        ensures
            old(self).initialize_post(*final(self), *proof, r),
    ;

    /// Signs a block proposed by this validator.
    fn sign_proposal(&mut self, block_data: &BlockData) -> (r: Result<Signature, Error>)
        ensures
            old(self).proposal_post(*final(self), *block_data, r),
    ;

    /// Signs a timeout for a round.
    fn sign_timeout(&mut self, timeout: &Timeout) -> (r: Result<Signature, Error>)
        ensures
            old(self).timeout_post(*final(self), *timeout, r),
    ;

    /// Signs a two-chain timeout.
    fn sign_timeout_with_qc(
        &mut self,
        timeout: &TwoChainTimeout,
        timeout_cert: Option<&TwoChainTimeoutCertificate>,
    ) -> (r: Result<Signature, Error>)
        ensures
            old(self).timeout_with_qc_post(*final(self), *timeout, tc_of(timeout_cert), r),
    ;

    /// Votes for a proposed block under the three-chain rule.
    fn construct_and_sign_vote(&mut self, vote_proposal: &VoteProposal) -> (r: Result<Vote, Error>)
        ensures
            old(self).vote_post(*final(self), *vote_proposal, r),
    ;

    /// Votes for a proposed block under the two-chain rule.
    fn construct_and_sign_vote_two_chain(
        &mut self,
        vote_proposal: &VoteProposal,
        timeout_cert: Option<&TwoChainTimeoutCertificate>,
    ) -> (r: Result<Vote, Error>)
        ensures
            old(self).vote_two_chain_post(*final(self), *vote_proposal, tc_of(timeout_cert), r),
    ;

    /// Signs the commit of an ordered ledger info.
    fn sign_commit_vote(
        &mut self,
        ledger_info: &LedgerInfoWithSignatures,
        new_ledger_info: &LedgerInfo,
    ) -> (r: Result<Signature, Error>)
        ensures
            old(self).commit_post(*final(self), *ledger_info, *new_ledger_info, r),
    ;
}

impl TSafetyRules for SafetyRules {
    open spec fn state_post(self, new: Self, r: Result<ConsensusState, Error>) -> bool {
        new == self && (r matches Ok(cs) && engine::consensus_state_post(self, cs))
    }

    open spec fn initialize_post(self, new: Self, proof: EpochChangeProof, r: Result<(), Error>) -> bool {
        engine::initialize_post(self, new, proof, r)
    }

    open spec fn proposal_post(self, new: Self, block_data: BlockData, r: Result<Signature, Error>) -> bool {
        new == self && engine::proposal_post(self, block_data, r)
    }

    open spec fn timeout_post(self, new: Self, timeout: Timeout, r: Result<Signature, Error>) -> bool {
        engine::timeout_post(self, new, timeout, r)
    }

    open spec fn timeout_with_qc_post(
        self,
        new: Self,
        timeout: TwoChainTimeout,
        tc: Option<TwoChainTimeoutCertificate>,
        r: Result<Signature, Error>,
    ) -> bool {
        engine::timeout_with_qc_post(self, new, timeout, tc, r)
    }

    open spec fn vote_post(self, new: Self, proposal: VoteProposal, r: Result<Vote, Error>) -> bool {
        engine::vote_post(self, new, proposal, r)
    }

    open spec fn vote_two_chain_post(
        self,
        new: Self,
        proposal: VoteProposal,
        tc: Option<TwoChainTimeoutCertificate>,
        r: Result<Vote, Error>,
    ) -> bool {
        engine::vote_two_chain_post(self, new, proposal, tc, r)
    }

    open spec fn commit_post(
        self,
        new: Self,
        ledger_info: LedgerInfoWithSignatures,
        new_ledger_info: LedgerInfo,
        r: Result<Signature, Error>,
    ) -> bool {
        engine::commit_post(self, new, ledger_info, new_ledger_info, r)
    }

    fn consensus_state(&mut self) -> (r: Result<ConsensusState, Error>) {
        Ok(SafetyRules::consensus_state(self))
    }

    fn initialize(&mut self, proof: &EpochChangeProof) -> (r: Result<(), Error>) {
        SafetyRules::initialize(self, proof)
    }

    fn sign_proposal(&mut self, block_data: &BlockData) -> (r: Result<Signature, Error>) {
        SafetyRules::sign_proposal(self, block_data)
    }

    fn sign_timeout(&mut self, timeout: &Timeout) -> (r: Result<Signature, Error>) {
        SafetyRules::sign_timeout(self, timeout)
    }

    fn sign_timeout_with_qc(
        &mut self,
        timeout: &TwoChainTimeout,
        timeout_cert: Option<&TwoChainTimeoutCertificate>,
    ) -> (r: Result<Signature, Error>) {
        SafetyRules::sign_timeout_with_qc(self, timeout, timeout_cert)
    }

    fn construct_and_sign_vote(&mut self, vote_proposal: &VoteProposal) -> (r: Result<Vote, Error>) {
        SafetyRules::construct_and_sign_vote(self, vote_proposal)
    }

    fn construct_and_sign_vote_two_chain(
        &mut self,
        vote_proposal: &VoteProposal,
        timeout_cert: Option<&TwoChainTimeoutCertificate>,
    ) -> (r: Result<Vote, Error>) {
        SafetyRules::construct_and_sign_vote_two_chain(self, vote_proposal, timeout_cert)
    }

    fn sign_commit_vote(
        &mut self,
        ledger_info: &LedgerInfoWithSignatures,
        new_ledger_info: &LedgerInfo,
    ) -> (r: Result<Signature, Error>) {
        SafetyRules::sign_commit_vote(self, ledger_info, new_ledger_info)
    }
}

} // verus!
