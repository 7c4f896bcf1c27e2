use safety_rules::account::AccountAddress;
use safety_rules::consensus_types::{
    BlockData, QuorumCert, Timeout, TwoChainTimeout, TwoChainTimeoutCertificate, VoteProposal,
};
use safety_rules::epoch_change::{verify_epoch_change, EpochChangeProof};
use safety_rules::error::Error;
use safety_rules::ledger_info::{
    EpochState, LedgerInfo, LedgerInfoWithSignatures, ValidatorSignature, Waypoint,
};
use safety_rules::safety_data::{PersistentSafetyStorage, SafetyData};
use safety_rules::safety_rules::SafetyRules;
use safety_rules::validator_set::{PublicKey, ValidatorInfo, ValidatorSet, ValidatorSigner};

fn member(i: u64) -> ValidatorInfo {
    ValidatorInfo {
        account_address: AccountAddress(i as u128),
        consensus_public_key: PublicKey(1000 + i),
        consensus_voting_power: 1,
    }
}

fn signer_of(i: u64) -> ValidatorSigner {
    ValidatorSigner::new(AccountAddress(i as u128), PublicKey(1000 + i))
}

/// Four validators with addresses `first..first + 4`.
fn validator_set(first: u64) -> ValidatorSet {
    ValidatorSet::new((first..first + 4).map(member).collect())
}

fn ledger_info(epoch: u64, version: u64, next: Option<EpochState>) -> LedgerInfo {
    LedgerInfo {
        epoch,
        round: 10 * epoch,
        id: vec![epoch as u8; 4],
        executed_state_id: vec![7, epoch as u8],
        version,
        timestamp_usecs: 1_000 * version,
        next_epoch_state: next,
    }
}

fn sign_by(li: LedgerInfo, signers: &[u64]) -> LedgerInfoWithSignatures {
    let msg = li.signing_bytes();
    let signatures = signers
        .iter()
        .map(|&i| ValidatorSignature {
            author: AccountAddress(i as u128),
            signature: signer_of(i).sign(msg.clone()),
        })
        .collect();
    LedgerInfoWithSignatures { ledger_info: li, signatures }
}

fn genesis() -> LedgerInfo {
    ledger_info(0, 0, Some(EpochState { epoch: 1, verifier: validator_set(1) }))
}

fn genesis_waypoint() -> Waypoint {
    Waypoint::new_epoch_boundary(&genesis()).unwrap()
}

/// Genesis, then the end of epoch 1 (signed by epoch 1's set), then the end of
/// epoch 2 (signed by epoch 2's set): it ends in epoch 3.
fn proof_to_epoch_3() -> EpochChangeProof {
    let end_1 = ledger_info(1, 100, Some(EpochState { epoch: 2, verifier: validator_set(11) }));
    let end_2 = ledger_info(2, 200, Some(EpochState { epoch: 3, verifier: validator_set(21) }));
    EpochChangeProof::new(vec![
        sign_by(genesis(), &[]),
        sign_by(end_1, &[1, 2, 3]),
        sign_by(end_2, &[11, 12, 13]),
    ])
}

fn genesis_proof() -> EpochChangeProof {
    EpochChangeProof::new(vec![sign_by(genesis(), &[])])
}

fn engine_with(data: SafetyData) -> SafetyRules {
    let storage = PersistentSafetyStorage::new(signer_of(1), genesis_waypoint(), data);
    SafetyRules::new(storage)
}

fn initialized_engine(data: SafetyData) -> SafetyRules {
    let mut engine = engine_with(data);
    engine.initialize(&genesis_proof()).unwrap();
    engine
}

fn proposal(epoch: u64, round: u64, certified_round: u64, parent_round: u64) -> VoteProposal {
    VoteProposal {
        block: BlockData {
            epoch,
            round,
            author: AccountAddress(2),
            id: vec![round as u8, 1],
            quorum_cert: QuorumCert {
                certified_round,
                certified_id: vec![certified_round as u8],
                parent_round,
            },
        },
    }
}

#[test]
fn scenario_vote_rounds_from_five() {
    let mut engine = initialized_engine(SafetyData::new(1, 5, 3));
    assert_eq!(
        engine.construct_and_sign_vote(&proposal(1, 5, 4, 3)),
        Err(Error::InvalidOrdering)
    );
    let vote = engine.construct_and_sign_vote(&proposal(1, 6, 5, 4)).unwrap();
    assert_eq!(vote.vote_data.round, 6);
    assert_eq!(vote.vote_data.epoch, 1);
    assert_eq!(vote.author, AccountAddress(1));
    assert_eq!(vote.signature.signer, PublicKey(1001));
    assert_eq!(vote.signature.message, vote.vote_data.signing_bytes());
    let state = engine.consensus_state();
    assert_eq!(state.epoch, 1);
    assert_eq!(state.last_voted_round, 6);
    assert!(state.preferred_round <= 6);
    assert_eq!(state.preferred_round, 4);
    assert_eq!(
        engine.construct_and_sign_vote(&proposal(1, 6, 5, 4)),
        Err(Error::InvalidOrdering)
    );
}

#[test]
fn scenario_initialize_through_epochs_one_two_three() {
    let mut engine = engine_with(SafetyData::new(1, 5, 3));
    assert_eq!(engine.initialize(&proof_to_epoch_3()), Ok(()));
    let state = engine.consensus_state();
    assert_eq!(state.epoch, 3);
    assert_eq!(state.last_voted_round, 0);
    assert_eq!(state.preferred_round, 0);
    assert_eq!(state.waypoint.version, 200);
    assert!(!state.in_validator_set);
}

#[test]
fn scenario_tampered_signer_set_is_refused() {
    let mut proof = proof_to_epoch_3();
    let end_1 = ledger_info(1, 100, Some(EpochState { epoch: 2, verifier: validator_set(51) }));
    proof.ledger_info_with_sigs[1] = sign_by(end_1, &[1, 2, 3]);
    let mut engine = engine_with(SafetyData::new(1, 5, 3));
    assert_eq!(engine.initialize(&proof), Err(Error::InvalidEpochChangeProof));
    let state = engine.consensus_state();
    assert_eq!(state.epoch, 1);
    assert_eq!(state.last_voted_round, 5);
}

#[test]
fn tampered_record_after_signing_is_refused() {
    let mut proof = proof_to_epoch_3();
    proof.ledger_info_with_sigs[1].ledger_info.next_epoch_state =
        Some(EpochState { epoch: 2, verifier: validator_set(51) });
    let mut engine = engine_with(SafetyData::new(1, 0, 0));
    assert_eq!(engine.initialize(&proof), Err(Error::InvalidEpochChangeProof));
}

#[test]
fn waypoint_mismatch_is_refused() {
    let mut other = genesis();
    other.executed_state_id = vec![9, 9];
    let proof = EpochChangeProof::new(vec![sign_by(other, &[])]);
    let mut engine = engine_with(SafetyData::new(1, 0, 0));
    assert_eq!(engine.initialize(&proof), Err(Error::WaypointMismatch));
    assert_eq!(
        engine.construct_and_sign_vote(&proposal(1, 1, 0, 0)),
        Err(Error::NotInitialized)
    );
}

#[test]
fn empty_and_stale_proofs_are_refused() {
    let mut engine = engine_with(SafetyData::new(1, 0, 0));
    assert_eq!(
        engine.initialize(&EpochChangeProof::new(vec![])),
        Err(Error::InvalidEpochChangeProof)
    );
    // A waypoint at version 100 makes a proof that ends at version 0 stale.
    let end_1 = ledger_info(1, 100, Some(EpochState { epoch: 2, verifier: validator_set(11) }));
    let wp = Waypoint::new_epoch_boundary(&end_1).unwrap();
    let storage = PersistentSafetyStorage::new(signer_of(1), wp, SafetyData::new(2, 0, 0));
    let mut later = SafetyRules::new(storage);
    assert_eq!(later.initialize(&genesis_proof()), Err(Error::InvalidEpochChangeProof));
}

#[test]
fn proof_without_quorum_is_refused() {
    let end_1 = ledger_info(1, 100, Some(EpochState { epoch: 2, verifier: validator_set(11) }));
    let proof = EpochChangeProof::new(vec![sign_by(genesis(), &[]), sign_by(end_1, &[1, 2])]);
    let mut engine = engine_with(SafetyData::new(1, 0, 0));
    assert_eq!(engine.initialize(&proof), Err(Error::InvalidEpochChangeProof));
}

#[test]
fn proof_with_repeated_signer_is_refused() {
    let end_1 = ledger_info(1, 100, Some(EpochState { epoch: 2, verifier: validator_set(11) }));
    let proof = EpochChangeProof::new(vec![sign_by(genesis(), &[]), sign_by(end_1, &[1, 2, 2])]);
    let mut engine = engine_with(SafetyData::new(1, 0, 0));
    assert_eq!(engine.initialize(&proof), Err(Error::InvalidEpochChangeProof));
}

#[test]
fn proof_skipping_an_epoch_is_refused() {
    let end_1 = ledger_info(1, 100, Some(EpochState { epoch: 3, verifier: validator_set(11) }));
    let proof = EpochChangeProof::new(vec![sign_by(genesis(), &[]), sign_by(end_1, &[1, 2, 3])]);
    let mut engine = engine_with(SafetyData::new(1, 0, 0));
    assert_eq!(engine.initialize(&proof), Err(Error::InvalidEpochChangeProof));
}

#[test]
fn signature_under_wrong_key_is_refused() {
    let end_1 = ledger_info(1, 100, Some(EpochState { epoch: 2, verifier: validator_set(11) }));
    let mut rec = sign_by(end_1, &[1, 2, 3]);
    rec.signatures[0].signature = signer_of(9).sign(rec.ledger_info.signing_bytes());
    let proof = EpochChangeProof::new(vec![sign_by(genesis(), &[]), rec]);
    let mut engine = engine_with(SafetyData::new(1, 0, 0));
    assert_eq!(engine.initialize(&proof), Err(Error::InvalidEpochChangeProof));
}

#[test]
fn repeated_initialize_is_a_no_op() {
    let mut engine = initialized_engine(SafetyData::new(1, 5, 3));
    assert_eq!(engine.initialize(&genesis_proof()), Ok(()));
    let state = engine.consensus_state();
    assert_eq!((state.epoch, state.last_voted_round, state.preferred_round), (1, 5, 3));
    assert!(state.in_validator_set);
    // After moving to epoch 3, a proof that ends in epoch 1 changes nothing.
    assert_eq!(engine.initialize(&proof_to_epoch_3()), Ok(()));
    let mut from_epoch_3 = engine_with(SafetyData::new(3, 4, 2));
    assert_eq!(from_epoch_3.initialize(&genesis_proof()), Ok(()));
    let state = from_epoch_3.consensus_state();
    assert_eq!((state.epoch, state.last_voted_round, state.preferred_round), (3, 4, 2));
    assert_eq!(
        from_epoch_3.construct_and_sign_vote(&proposal(3, 9, 8, 7)),
        Err(Error::NotInitialized)
    );
}

#[test]
fn no_double_voting_on_falling_rounds() {
    let mut engine = initialized_engine(SafetyData::new(1, 0, 0));
    assert!(engine.construct_and_sign_vote(&proposal(1, 9, 8, 7)).is_ok());
    for round in [9, 8, 8, 5, 1] {
        assert_eq!(
            engine.construct_and_sign_vote(&proposal(1, round, round - 1, 0)),
            Err(Error::InvalidOrdering)
        );
    }
    assert_eq!(engine.consensus_state().last_voted_round, 9);
}

#[test]
fn restart_keeps_last_voted_round() {
    let mut engine = initialized_engine(SafetyData::new(1, 0, 0));
    assert!(engine.construct_and_sign_vote(&proposal(1, 7, 6, 5)).is_ok());
    let storage = engine.into_storage();
    assert_eq!(storage.safety_data().last_voted_round, 7);
    let mut restarted = SafetyRules::new(storage);
    assert_eq!(
        restarted.construct_and_sign_vote(&proposal(1, 7, 6, 5)),
        Err(Error::NotInitialized)
    );
    assert_eq!(restarted.initialize(&genesis_proof()), Ok(()));
    assert_eq!(restarted.consensus_state().last_voted_round, 7);
    assert_eq!(
        restarted.construct_and_sign_vote(&proposal(1, 7, 6, 5)),
        Err(Error::InvalidOrdering)
    );
    assert_eq!(
        restarted.construct_and_sign_vote(&proposal(1, 3, 2, 1)),
        Err(Error::InvalidOrdering)
    );
    assert!(restarted.construct_and_sign_vote(&proposal(1, 8, 7, 6)).is_ok());
}

#[test]
fn replay_after_new_epoch_is_refused() {
    let mut engine = initialized_engine(SafetyData::new(1, 0, 0));
    let p = proposal(1, 4, 3, 2);
    assert!(engine.construct_and_sign_vote(&p).is_ok());
    let end_1 = ledger_info(1, 100, Some(EpochState { epoch: 2, verifier: validator_set(1) }));
    let proof = EpochChangeProof::new(vec![sign_by(genesis(), &[]), sign_by(end_1, &[1, 2, 3])]);
    assert_eq!(engine.initialize(&proof), Ok(()));
    assert_eq!(engine.consensus_state().epoch, 2);
    assert_eq!(engine.construct_and_sign_vote(&p), Err(Error::IncorrectEpoch(1, 2)));
    assert_eq!(
        engine.construct_and_sign_vote(&proposal(1, 50, 49, 48)),
        Err(Error::IncorrectEpoch(1, 2))
    );
    assert!(engine.construct_and_sign_vote(&proposal(2, 4, 3, 2)).is_ok());
}

#[test]
fn vote_needs_initialization_and_epoch() {
    let mut engine = engine_with(SafetyData::new(1, 0, 0));
    assert_eq!(
        engine.construct_and_sign_vote(&proposal(1, 1, 0, 0)),
        Err(Error::NotInitialized)
    );
    engine.initialize(&genesis_proof()).unwrap();
    assert_eq!(
        engine.construct_and_sign_vote(&proposal(2, 1, 0, 0)),
        Err(Error::IncorrectEpoch(2, 1))
    );
}

#[test]
fn vote_below_preferred_round_is_refused() {
    let mut engine = initialized_engine(SafetyData::new(1, 5, 3));
    assert_eq!(
        engine.construct_and_sign_vote(&proposal(1, 8, 2, 1)),
        Err(Error::InvalidOrdering)
    );
    // A certificate that does not lie below its block is malformed.
    assert_eq!(
        engine.construct_and_sign_vote(&proposal(1, 8, 8, 1)),
        Err(Error::InvalidOrdering)
    );
    assert_eq!(engine.consensus_state().last_voted_round, 5);
}

#[test]
fn two_chain_vote_rules() {
    let mut engine = initialized_engine(SafetyData::new(1, 0, 0));
    // Round 5 does not follow certified round 3, and there is no timeout certificate.
    assert_eq!(
        engine.construct_and_sign_vote_two_chain(&proposal(1, 5, 3, 2), None),
        Err(Error::InvalidOrdering)
    );
    let tc = TwoChainTimeoutCertificate { epoch: 1, round: 4, highest_hqc_round: 3 };
    let vote = engine.construct_and_sign_vote_two_chain(&proposal(1, 5, 3, 2), Some(&tc));
    assert_eq!(vote.unwrap().vote_data.round, 5);
    assert_eq!(engine.consensus_state().preferred_round, 2);
    let stale_tc = TwoChainTimeoutCertificate { epoch: 1, round: 6, highest_hqc_round: 5 };
    assert_eq!(
        engine.construct_and_sign_vote_two_chain(&proposal(1, 7, 4, 3), Some(&stale_tc)),
        Err(Error::InvalidOrdering)
    );
    let other_epoch = TwoChainTimeoutCertificate { epoch: 2, round: 6, highest_hqc_round: 5 };
    assert_eq!(
        engine.construct_and_sign_vote_two_chain(&proposal(1, 7, 6, 5), Some(&other_epoch)),
        Err(Error::IncorrectEpoch(2, 1))
    );
    assert!(engine.construct_and_sign_vote_two_chain(&proposal(1, 7, 6, 5), None).is_ok());
    assert_eq!(engine.consensus_state().preferred_round, 5);
}

#[test]
fn timeouts_raise_last_voted_round() {
    let mut engine = initialized_engine(SafetyData::new(1, 5, 3));
    assert_eq!(
        engine.sign_timeout(&Timeout { epoch: 1, round: 4 }),
        Err(Error::InvalidOrdering)
    );
    let sig = engine.sign_timeout(&Timeout { epoch: 1, round: 5 }).unwrap();
    assert_eq!(sig.message, Timeout { epoch: 1, round: 5 }.signing_bytes());
    assert_eq!(engine.consensus_state().last_voted_round, 5);
    assert!(engine.sign_timeout(&Timeout { epoch: 1, round: 8 }).is_ok());
    assert_eq!(engine.consensus_state().last_voted_round, 8);
    assert_eq!(
        engine.construct_and_sign_vote(&proposal(1, 8, 7, 6)),
        Err(Error::InvalidOrdering)
    );
    assert_eq!(
        engine.sign_timeout(&Timeout { epoch: 2, round: 9 }),
        Err(Error::IncorrectEpoch(2, 1))
    );
}

#[test]
fn two_chain_timeouts() {
    let mut engine = initialized_engine(SafetyData::new(1, 5, 3));
    let t = TwoChainTimeout { epoch: 1, round: 7, hqc_round: 5 };
    assert_eq!(engine.sign_timeout_with_qc(&t, None), Err(Error::InvalidOrdering));
    let tc = TwoChainTimeoutCertificate { epoch: 1, round: 6, highest_hqc_round: 5 };
    assert!(engine.sign_timeout_with_qc(&t, Some(&tc)).is_ok());
    assert_eq!(engine.consensus_state().last_voted_round, 7);
    let low = TwoChainTimeout { epoch: 1, round: 6, hqc_round: 5 };
    assert_eq!(engine.sign_timeout_with_qc(&low, None), Err(Error::InvalidOrdering));
    let next = TwoChainTimeout { epoch: 1, round: 8, hqc_round: 7 };
    assert!(engine.sign_timeout_with_qc(&next, None).is_ok());
    assert_eq!(engine.consensus_state().last_voted_round, 8);
}

#[test]
fn proposals_are_signed_without_round_change() {
    let mut engine = initialized_engine(SafetyData::new(1, 5, 3));
    let mut block = proposal(1, 6, 5, 4).block;
    assert_eq!(engine.sign_proposal(&block), Err(Error::NotAuthorized));
    block.author = AccountAddress(1);
    let sig = engine.sign_proposal(&block).unwrap();
    assert_eq!(sig.message, block.signing_bytes());
    assert_eq!(engine.consensus_state().last_voted_round, 5);
    block.epoch = 2;
    assert_eq!(engine.sign_proposal(&block), Err(Error::IncorrectEpoch(2, 1)));
    assert!(engine.construct_and_sign_vote(&proposal(1, 6, 5, 4)).is_ok());
}

#[test]
fn commit_votes() {
    let mut engine = initialized_engine(SafetyData::new(1, 5, 3));
    let ordered = ledger_info(1, 100, None);
    let mut executed = ordered.clone();
    executed.executed_state_id = vec![42];
    executed.version = 123;
    let weak = sign_by(ordered.clone(), &[1, 2]);
    assert_eq!(engine.sign_commit_vote(&weak, &executed), Err(Error::InvalidOrdering));
    let strong = sign_by(ordered.clone(), &[1, 2, 4]);
    let sig = engine.sign_commit_vote(&strong, &executed).unwrap();
    assert_eq!(sig.message, executed.signing_bytes());
    assert_eq!(engine.sign_commit_vote(&strong, &executed), Err(Error::InvalidOrdering));
    let mut other_block = executed.clone();
    other_block.id = vec![0];
    let later = sign_by(ledger_info(1, 200, None), &[1, 2, 3]);
    assert_eq!(engine.sign_commit_vote(&later, &other_block), Err(Error::InvalidOrdering));
    let wrong_epoch = sign_by(ledger_info(2, 100, None), &[1, 2, 3]);
    assert_eq!(
        engine.sign_commit_vote(&wrong_epoch, &executed),
        Err(Error::IncorrectEpoch(2, 1))
    );
}

#[test]
fn verifier_returns_the_new_trust_anchor() {
    let (wp, next) = verify_epoch_change(&genesis_waypoint(), &proof_to_epoch_3()).unwrap();
    assert_eq!(wp.version, 200);
    assert_eq!(next.epoch, 3);
    assert_eq!(next.verifier, validator_set(21));
    let end_2 = ledger_info(2, 200, Some(EpochState { epoch: 3, verifier: validator_set(21) }));
    assert!(wp.matches(&end_2));
    let (same, first) = verify_epoch_change(&genesis_waypoint(), &genesis_proof()).unwrap();
    assert_eq!(same, genesis_waypoint());
    assert_eq!(first.epoch, 1);
}
