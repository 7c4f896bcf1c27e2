use safety_rules::account::AccountAddress;
use safety_rules::consensus_types::{
    BlockData, QuorumCert, Timeout, TwoChainTimeout, TwoChainTimeoutCertificate, Vote, VoteProposal,
};
use safety_rules::epoch_change::EpochChangeProof;
use safety_rules::error::Error;
use safety_rules::ledger_info::{
    EpochState, LedgerInfo, LedgerInfoWithSignatures, Waypoint,
};
use safety_rules::metrics_safety_rules::{MetricsSafetyRules, PersistentLivenessStorage};
use safety_rules::safety_data::{ConsensusState, PersistentSafetyStorage};
use std::cell::Cell;
use std::rc::Rc;
use safety_rules::safety_rules::SafetyRules;
use safety_rules::serializer::{
    from_transport, LocalTransport, SafetyRulesInput, SafetyRulesOutput, SerializerClient,
    Transport, TransportError,
};
use safety_rules::t_safety_rules::TSafetyRules;
use safety_rules::validator_set::{PublicKey, Signature, ValidatorInfo, ValidatorSet, ValidatorSigner};

fn genesis() -> LedgerInfo {
    let members = (1..5u64)
        .map(|i| ValidatorInfo {
            account_address: AccountAddress(i as u128),
            consensus_public_key: PublicKey(1000 + i),
            consensus_voting_power: 1,
        })
        .collect();
    LedgerInfo {
        epoch: 0,
        round: 0,
        id: vec![0; 4],
        executed_state_id: vec![1, 2, 3],
        version: 0,
        timestamp_usecs: 0,
        next_epoch_state: Some(EpochState { epoch: 1, verifier: ValidatorSet::new(members) }),
    }
}

fn genesis_proof() -> EpochChangeProof {
    EpochChangeProof::new(vec![LedgerInfoWithSignatures { ledger_info: genesis(), signatures: vec![] }])
}

fn fresh_engine() -> SafetyRules {
    let signer = ValidatorSigner::new(AccountAddress(1), PublicKey(1001));
    let waypoint = Waypoint::new_epoch_boundary(&genesis()).unwrap();
    SafetyRules::new(PersistentSafetyStorage::initialize(signer, waypoint))
}

fn proposal(round: u64) -> VoteProposal {
    VoteProposal {
        block: BlockData {
            epoch: 1,
            round,
            author: AccountAddress(2),
            id: vec![round as u8],
            quorum_cert: QuorumCert { certified_round: round - 1, certified_id: vec![], parent_round: 0 },
        },
    }
}

/// Hands out the genesis proof and counts the requests.
struct GenesisStorage {
    requests: Cell<u32>,
}

impl PersistentLivenessStorage for GenesisStorage {
    fn retrieve_epoch_change_proof(&self, _version: u64) -> Result<EpochChangeProof, Error> {
        self.requests.set(self.requests.get() + 1);
        Ok(genesis_proof())
    }
}

struct BrokenStorage;

impl PersistentLivenessStorage for BrokenStorage {
    fn retrieve_epoch_change_proof(&self, _version: u64) -> Result<EpochChangeProof, Error> {
        Err(Error::IoError)
    }
}

/// An engine that fails every vote with a fixed error until it is initialized,
/// or forever; it counts calls.
struct ScriptedEngine {
    error: Error,
    recovers: bool,
    initialized: bool,
    votes: Rc<Cell<u32>>,
    inits: Rc<Cell<u32>>,
}

impl ScriptedEngine {
    fn new(error: Error, recovers: bool) -> Self {
        ScriptedEngine {
            error,
            recovers,
            initialized: false,
            votes: Rc::new(Cell::new(0)),
            inits: Rc::new(Cell::new(0)),
        }
    }

    fn answer<T>(&mut self, ok: T) -> Result<T, Error> {
        self.votes.set(self.votes.get() + 1);
        if self.initialized && self.recovers {
            Ok(ok)
        } else {
            Err(self.error)
        }
    }
}

fn dummy_signature() -> Signature {
    ValidatorSigner::new(AccountAddress(1), PublicKey(1001)).sign(vec![1])
}

impl TSafetyRules for ScriptedEngine {
    fn state_post(self, _new: Self, _r: Result<ConsensusState, Error>) -> bool {
        true
    }
    fn initialize_post(self, _new: Self, _proof: EpochChangeProof, _r: Result<(), Error>) -> bool {
        true
    }
    fn proposal_post(self, _new: Self, _b: BlockData, _r: Result<Signature, Error>) -> bool {
        true
    }
    fn timeout_post(self, _new: Self, _t: Timeout, _r: Result<Signature, Error>) -> bool {
        true
    }
    fn timeout_with_qc_post(
        self,
        _new: Self,
        _t: TwoChainTimeout,
        _tc: Option<TwoChainTimeoutCertificate>,
        _r: Result<Signature, Error>,
    ) -> bool {
        true
    }
    fn vote_post(self, _new: Self, _p: VoteProposal, _r: Result<Vote, Error>) -> bool {
        true
    }
    fn vote_two_chain_post(
        self,
        _new: Self,
        _p: VoteProposal,
        _tc: Option<TwoChainTimeoutCertificate>,
        _r: Result<Vote, Error>,
    ) -> bool {
        true
    }
    fn commit_post(
        self,
        _new: Self,
        _li: LedgerInfoWithSignatures,
        _new_li: LedgerInfo,
        _r: Result<Signature, Error>,
    ) -> bool {
        true
    }

    fn consensus_state(&mut self) -> Result<ConsensusState, Error> {
        Ok(ConsensusState {
            epoch: 1,
            last_voted_round: 0,
            preferred_round: 0,
            waypoint: Waypoint { version: 0, value: vec![] },
            in_validator_set: true,
        })
    }

    fn initialize(&mut self, _proof: &EpochChangeProof) -> Result<(), Error> {
        self.inits.set(self.inits.get() + 1);
        self.initialized = true;
        Ok(())
    }

    fn sign_proposal(&mut self, _block_data: &BlockData) -> Result<Signature, Error> {
        self.answer(dummy_signature())
    }

    fn sign_timeout(&mut self, _timeout: &Timeout) -> Result<Signature, Error> {
        self.answer(dummy_signature())
    }

    fn sign_timeout_with_qc(
        &mut self,
        _timeout: &TwoChainTimeout,
        _timeout_cert: Option<&TwoChainTimeoutCertificate>,
    ) -> Result<Signature, Error> {
        self.answer(dummy_signature())
    }

    fn construct_and_sign_vote(&mut self, vote_proposal: &VoteProposal) -> Result<Vote, Error> {
        let vote = Vote {
            vote_data: vote_proposal.block.vote_data(),
            author: AccountAddress(1),
            signature: dummy_signature(),
        };
        self.answer(vote)
    }

    fn construct_and_sign_vote_two_chain(
        &mut self,
        vote_proposal: &VoteProposal,
        _timeout_cert: Option<&TwoChainTimeoutCertificate>,
    ) -> Result<Vote, Error> {
        self.construct_and_sign_vote(vote_proposal)
    }

    fn sign_commit_vote(
        &mut self,
        _ledger_info: &LedgerInfoWithSignatures,
        _new_ledger_info: &LedgerInfo,
    ) -> Result<Signature, Error> {
        self.answer(dummy_signature())
    }
}

fn wrap<T: TSafetyRules>(inner: T) -> MetricsSafetyRules<T, GenesisStorage> {
    MetricsSafetyRules::new(inner, GenesisStorage { requests: Cell::new(0) })
}

#[test]
fn retry_recovers_after_one_initialization() {
    let mut wrapper = wrap(ScriptedEngine::new(Error::NotInitialized, true));
    assert!(wrapper.construct_and_sign_vote(&proposal(3)).is_ok());
    let engine = ScriptedEngine::new(Error::NotInitialized, true);
    let mut counted = wrap(engine);
    assert!(counted.sign_timeout(&Timeout { epoch: 1, round: 2 }).is_ok());
    assert!(counted.sign_proposal(&proposal(3).block).is_ok());
}

#[test]
fn retry_gives_up_after_one_more_try() {
    let mut wrapper = wrap(ScriptedEngine::new(Error::NotInitialized, false));
    assert_eq!(wrapper.construct_and_sign_vote(&proposal(3)), Err(Error::NotInitialized));
    let mut epoch = wrap(ScriptedEngine::new(Error::IncorrectEpoch(2, 1), false));
    assert_eq!(epoch.sign_timeout(&Timeout { epoch: 2, round: 1 }), Err(Error::IncorrectEpoch(2, 1)));
}

#[test]
fn retry_counts_calls() {
    let engine = ScriptedEngine::new(Error::NotInitialized, false);
    let (votes, inits) = (engine.votes.clone(), engine.inits.clone());
    let storage = GenesisStorage { requests: Cell::new(0) };
    let mut wrapper = MetricsSafetyRules::new(engine, storage);
    assert_eq!(wrapper.construct_and_sign_vote(&proposal(3)), Err(Error::NotInitialized));
    assert_eq!(votes.get(), 2);
    assert_eq!(inits.get(), 1);
    let good = ScriptedEngine::new(Error::NotInitialized, true);
    let (votes, inits) = (good.votes.clone(), good.inits.clone());
    let mut wrapper = wrap(good);
    assert!(wrapper
        .sign_commit_vote(
            &LedgerInfoWithSignatures { ledger_info: genesis(), signatures: vec![] },
            &genesis()
        )
        .is_ok());
    assert_eq!(votes.get(), 2);
    assert_eq!(inits.get(), 1);
}

#[test]
fn retry_passes_other_errors_through() {
    let engine = ScriptedEngine::new(Error::InvalidOrdering, false);
    let (votes, inits) = (engine.votes.clone(), engine.inits.clone());
    let mut wrapper = wrap(engine);
    assert_eq!(wrapper.construct_and_sign_vote(&proposal(3)), Err(Error::InvalidOrdering));
    assert_eq!(votes.get(), 1);
    assert_eq!(inits.get(), 0);
}

#[test]
fn retry_reports_a_failed_fetch() {
    let mut wrapper = MetricsSafetyRules::new(ScriptedEngine::new(Error::NotInitialized, true), BrokenStorage);
    assert_eq!(wrapper.construct_and_sign_vote(&proposal(3)), Err(Error::IoError));
    assert_eq!(wrapper.perform_initialize(), Err(Error::IoError));
}

#[test]
fn retry_initializes_a_real_engine() {
    let mut wrapper = wrap(fresh_engine());
    let vote = wrapper.construct_and_sign_vote(&proposal(3)).unwrap();
    assert_eq!(vote.vote_data.round, 3);
    assert_eq!(wrapper.consensus_state().unwrap().last_voted_round, 3);
    assert_eq!(wrapper.construct_and_sign_vote(&proposal(3)), Err(Error::InvalidOrdering));
    let mut direct = fresh_engine();
    assert_eq!(direct.construct_and_sign_vote(&proposal(3)), Err(Error::NotInitialized));
}

#[test]
fn perform_initialize_uses_the_stored_waypoint() {
    let mut wrapper = wrap(fresh_engine());
    assert_eq!(wrapper.perform_initialize(), Ok(()));
    let state = wrapper.consensus_state().unwrap();
    assert_eq!(state.epoch, 1);
    assert!(state.in_validator_set);
}

#[test]
fn local_transport_behaves_like_the_engine() {
    let mut client = SerializerClient::new(LocalTransport { engine: fresh_engine() });
    assert_eq!(client.construct_and_sign_vote(&proposal(3)), Err(Error::NotInitialized));
    assert_eq!(client.initialize(&genesis_proof()), Ok(()));
    let vote = client.construct_and_sign_vote(&proposal(3)).unwrap();
    let mut direct = fresh_engine();
    direct.initialize(&genesis_proof()).unwrap();
    assert_eq!(direct.construct_and_sign_vote(&proposal(3)).unwrap(), vote);
    assert_eq!(client.construct_and_sign_vote(&proposal(3)), Err(Error::InvalidOrdering));
    assert_eq!(client.consensus_state().unwrap().last_voted_round, 3);
}

#[test]
fn handle_message_answers_each_request() {
    let mut engine = fresh_engine();
    assert_eq!(
        engine.handle_message(SafetyRulesInput::Initialize(&genesis_proof())),
        Ok(SafetyRulesOutput::Initialized)
    );
    match engine.handle_message(SafetyRulesInput::ConsensusState) {
        Ok(SafetyRulesOutput::ConsensusState(cs)) => assert_eq!(cs.epoch, 1),
        other => panic!("unexpected answer {:?}", other),
    }
    let t = Timeout { epoch: 1, round: 4 };
    match engine.handle_message(SafetyRulesInput::SignTimeout(&t)) {
        Ok(SafetyRulesOutput::Signature(s)) => assert_eq!(s.message, t.signing_bytes()),
        other => panic!("unexpected answer {:?}", other),
    }
    assert_eq!(
        engine.handle_message(SafetyRulesInput::ConstructAndSignVote(&proposal(4))),
        Err(Error::InvalidOrdering)
    );
}

/// A transport that always fails the same way, or always answers the same thing.
struct FixedTransport {
    reply: Result<Result<SafetyRulesOutput, Error>, TransportError>,
}

impl Transport for FixedTransport {
    fn request_post(
        self,
        _new: Self,
        _input: SafetyRulesInput<'_>,
        _reply: Result<Result<SafetyRulesOutput, Error>, TransportError>,
    ) -> bool {
        true
    }

    fn request(&mut self, _input: SafetyRulesInput<'_>) -> Result<Result<SafetyRulesOutput, Error>, TransportError> {
        self.reply.clone()
    }
}

#[test]
fn transport_failures_keep_their_own_kinds() {
    let mut lost = SerializerClient::new(FixedTransport { reply: Err(TransportError::Disconnected) });
    assert_eq!(lost.construct_and_sign_vote(&proposal(3)), Err(Error::IoError));
    let mut late = SerializerClient::new(FixedTransport { reply: Err(TransportError::TimedOut) });
    assert_eq!(late.sign_timeout(&Timeout { epoch: 1, round: 1 }), Err(Error::IoError));
    let mut garbled = SerializerClient::new(FixedTransport { reply: Err(TransportError::Malformed) });
    assert_eq!(garbled.initialize(&genesis_proof()), Err(Error::SerializationError));
    let mut confused = SerializerClient::new(FixedTransport { reply: Ok(Ok(SafetyRulesOutput::Initialized)) });
    assert_eq!(confused.construct_and_sign_vote(&proposal(3)), Err(Error::SerializationError));
    let mut refused = SerializerClient::new(FixedTransport { reply: Ok(Err(Error::InvalidOrdering)) });
    assert_eq!(refused.sign_proposal(&proposal(3).block), Err(Error::InvalidOrdering));
    assert_eq!(from_transport(Err(TransportError::Disconnected)), Err(Error::IoError));
    assert_eq!(from_transport(Ok(Err(Error::WaypointMismatch))), Err(Error::WaypointMismatch));
}

#[test]
fn remote_client_is_retried_by_the_wrapper() {
    let client = SerializerClient::new(LocalTransport { engine: fresh_engine() });
    let mut wrapper = wrap(client);
    assert!(wrapper.construct_and_sign_vote(&proposal(2)).is_ok());
}
