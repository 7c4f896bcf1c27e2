use vstd::prelude::*;

use crate::consensus_types::{
    BlockData, Timeout, TwoChainTimeout, TwoChainTimeoutCertificate, Vote, VoteProposal,
};
use crate::epoch_change::EpochChangeProof;
use crate::error::Error;
use crate::ledger_info::{LedgerInfo, LedgerInfoWithSignatures};
use crate::safety_data::ConsensusState;
use crate::serializer::{
    as_signature, as_vote, dispatch, outcome, tc_ref, SafetyRulesInput, SafetyRulesOutput,
};
use crate::t_safety_rules::TSafetyRules;
use crate::validator_set::Signature;

verus! {

/// The consensus driver's store of ledger history, as far as re-initialization needs it.
pub trait PersistentLivenessStorage {
    /// The epoch change proof from `version` on.
    fn retrieve_epoch_change_proof(&self, version: u64) -> Result<EpochChangeProof, Error>;
}

/// The error of a result, if any.
pub open spec fn err_of<T>(r: Result<T, Error>) -> Option<Error> {
    match r {
        Ok(_) => None,
        Err(e) => Some(e),
    }
}

/// Whether the wrapper answers this outcome with one re-initialization and one more try.
pub open spec fn recoverable(e: Option<Error>) -> bool {
    e matches Some(x) && x.is_recoverable()
}

/// What one re-initialization saw: the engine's state read and the engine
/// after it, the version asked for, what the liveness storage handed out,
/// `initialize`'s result and the engine after it, and the overall result.
pub struct Reinit<T> {
    pub state: Result<ConsensusState, Error>,
    pub after_state: T,
    pub version: u64,
    pub fetched: Result<EpochChangeProof, Error>,
    pub init: Result<(), Error>,
    pub after_init: T,
    pub result: Result<(), Error>,
}

/// One re-initialization of an engine that starts as `before` and ends as
/// `end`: read its waypoint, fetch the proof from that version on, hand that
/// very proof to `initialize`; the first failure ends it and is its result.
pub open spec fn reinit_post<T: TSafetyRules>(before: T, rl: Reinit<T>, end: T) -> bool {
    &&& before.state_post(rl.after_state, rl.state)
    &&& match rl.state {
        Err(e) => rl.result == Err::<(), Error>(e) && end == rl.after_state,
        Ok(cs) => rl.version == cs.waypoint.version && match rl.fetched {
            Err(e) => rl.result == Err::<(), Error>(e) && end == rl.after_state,
            Ok(proof) => {
                &&& rl.after_state.initialize_post(rl.after_init, proof, rl.init)
                &&& rl.result == rl.init
                &&& end == rl.after_init
            },
        },
    }
}

/// What one wrapped operation saw: the first answer and the engine after it,
/// the re-initialization (if there was one), and the answer returned.
pub struct RetryLog<T> {
    pub first: Result<SafetyRulesOutput, Error>,
    pub after_first: T,
    pub reinit: Reinit<T>,
    pub output: Result<SafetyRulesOutput, Error>,
}

/// One wrapped operation `input` on an engine that starts as `start` and ends
/// as `end`. The first answer is returned unless it is a recoverable failure;
/// then the engine is re-initialized once; a failure of that is returned;
/// otherwise the operation runs exactly once more and its answer is returned.
pub open spec fn retry_post<T: TSafetyRules>(
    start: T,
    log: RetryLog<T>,
    end: T,
    input: SafetyRulesInput,
) -> bool {
    &&& outcome(start, log.after_first, input, log.first)
    &&& if !recoverable(err_of(log.first)) {
        log.output == log.first && end == log.after_first
    } else {
        &&& match log.reinit.result {
            Err(e) => reinit_post(log.after_first, log.reinit, end) && log.output == Err::<
                SafetyRulesOutput,
                Error,
            >(e),
            Ok(()) => reinit_post(log.after_first, log.reinit, log.reinit.after_init) && outcome(
                log.reinit.after_init,
                end,
                input,
                log.output,
            ),
        }
    }
}

/// Wraps an engine: an operation that fails because the engine is not
/// initialized, or is in another epoch, is answered by re-initializing the
/// engine from the liveness storage once and trying the operation once more.
/// Every other outcome passes through unchanged.
pub struct MetricsSafetyRules<T, S> {
    inner: T,
    storage: S,
    log: Ghost<RetryLog<T>>,
}

impl<T: TSafetyRules, S: PersistentLivenessStorage> MetricsSafetyRules<T, S> {
    /// The wrapped engine.
    pub closed spec fn inner(self) -> T {
        self.inner
    }

    /// The liveness storage.
    pub closed spec fn storage(self) -> S {
        self.storage
    }

    /// What the last wrapped operation saw.
    pub closed spec fn log(self) -> RetryLog<T> {
        self.log@
    }

    pub fn new(inner: T, storage: S) -> (r: Self)
        ensures
            r.inner() == inner,
            r.storage() == storage,
    {
        let ghost log = RetryLog {
            first: Err(Error::NotInitialized),
            after_first: inner,
            reinit: Reinit {
                state: Err(Error::NotInitialized),
                after_state: inner,
                version: 0,
                fetched: Err(Error::NotInitialized),
                init: Err(Error::NotInitialized),
                after_init: inner,
                result: Err(Error::NotInitialized),
            },
            output: Err(Error::NotInitialized),
        };
        MetricsSafetyRules { inner, storage, log: Ghost(log) }
    }

    /// Whether a failure is one that re-initialization recovers from.
    fn needs_retry<R>(r: &Result<R, Error>) -> (b: bool)
        ensures
            b == recoverable(err_of(*r)),
    {
        match r {
            Err(Error::NotInitialized) | Err(Error::IncorrectEpoch(_, _)) => true,
            _ => false,
        }
    }

    fn reinitialize(&mut self) -> (r: (Result<(), Error>, Ghost<Reinit<T>>))
        ensures
            reinit_post(old(self).inner(), r.1@, final(self).inner()),
            r.1@.result == r.0,
            final(self).storage() == old(self).storage(),
            final(self).log() == old(self).log(),
    {
        let state = self.inner.consensus_state();
        let ghost after_state = self.inner;
        let cs = match state {
            Err(e) => {
                let ghost rl = Reinit {
                    state,
                    after_state,
                    version: 0,
                    fetched: Err(e),
                    init: Err(e),
                    after_init: after_state,
                    result: Err(e),
                };
                return (Err(e), Ghost(rl));
            },
            Ok(cs) => cs,
        };
        let ghost state_seen = Ok::<ConsensusState, Error>(cs);
        let version = cs.waypoint.version;
        let fetched = self.storage.retrieve_epoch_change_proof(version);
        let proof = match fetched {
            Err(e) => {
                let ghost rl = Reinit {
                    state: state_seen,
                    after_state,
                    version,
                    fetched: Err(e),
                    init: Err(e),
                    after_init: after_state,
                    result: Err(e),
                };
                return (Err(e), Ghost(rl));
            },
            Ok(p) => p,
        };
        let ghost fetched_seen = Ok::<EpochChangeProof, Error>(proof);
        let init = self.inner.initialize(&proof);
        let ghost rl = Reinit {
            state: state_seen,
            after_state,
            version,
            fetched: fetched_seen,
            init,
            after_init: self.inner,
            result: init,
        };
        (init, Ghost(rl))
    }

    /// Re-initializes the inner engine: reads its waypoint, fetches the epoch
    /// change proof from that version on, and hands it to `initialize`.
    pub fn perform_initialize(&mut self) -> (r: Result<(), Error>)
        ensures
            reinit_post(old(self).inner(), final(self).log().reinit, final(self).inner()),
            final(self).log().reinit.result == r,
            final(self).storage() == old(self).storage(),
    {
        let (r, rl) = self.reinitialize();
        let ghost log = RetryLog { reinit: rl@, ..self.log@ };
        self.log = Ghost(log);
        r
    }

    /// Runs `input` on the engine; on a recoverable failure, re-initializes the
    /// engine once and runs it once more.
    fn retry(&mut self, input: SafetyRulesInput) -> (r: Result<SafetyRulesOutput, Error>)
        ensures
            retry_post(old(self).inner(), final(self).log(), final(self).inner(), input),
            final(self).log().output == r,
            final(self).storage() == old(self).storage(),
    {
        let first = dispatch(&mut self.inner, input);
        let ghost after_first = self.inner;
        if !Self::needs_retry(&first) {
            let ghost log = RetryLog { first, after_first, output: first, ..self.log@ };
            self.log = Ghost(log);
            return first;
        }
        let (init, rl) = self.reinitialize();
        if let Err(e) = init {
            let ghost log = RetryLog { first, after_first, reinit: rl@, output: Err(e) };
            self.log = Ghost(log);
            return Err(e);
        }
        let second = dispatch(&mut self.inner, input);
        let ghost log = RetryLog { first, after_first, reinit: rl@, output: second };
        self.log = Ghost(log);
        second
    }

    /// Passes through to the inner engine.
    pub fn consensus_state(&mut self) -> (r: Result<ConsensusState, Error>)
        ensures
            old(self).inner().state_post(final(self).inner(), r),
            final(self).storage() == old(self).storage(),
            final(self).log() == old(self).log(),
    {
        self.inner.consensus_state()
    }

    /// Passes through to the inner engine.
    pub fn initialize(&mut self, proof: &EpochChangeProof) -> (r: Result<(), Error>)
        ensures
            old(self).inner().initialize_post(final(self).inner(), *proof, r),
            final(self).storage() == old(self).storage(),
            final(self).log() == old(self).log(),
    {
        self.inner.initialize(proof)
    }

    pub fn sign_proposal(&mut self, block_data: &BlockData) -> (r: Result<Signature, Error>)
        ensures
            retry_post(
                old(self).inner(),
                final(self).log(),
                final(self).inner(),
                SafetyRulesInput::SignProposal(block_data),
            ),
            r == as_signature(final(self).log().output),
            final(self).storage() == old(self).storage(),
    {
        match self.retry(SafetyRulesInput::SignProposal(block_data)) {
            Ok(SafetyRulesOutput::Signature(s)) => Ok(s),
            Ok(_) => Err(Error::SerializationError),
            Err(e) => Err(e),
        }
    }

    pub fn sign_timeout(&mut self, timeout: &Timeout) -> (r: Result<Signature, Error>)
        ensures
            retry_post(
                old(self).inner(),
                final(self).log(),
                final(self).inner(),
                SafetyRulesInput::SignTimeout(timeout),
            ),
            r == as_signature(final(self).log().output),
            final(self).storage() == old(self).storage(),
    {
        match self.retry(SafetyRulesInput::SignTimeout(timeout)) {
            Ok(SafetyRulesOutput::Signature(s)) => Ok(s),
            Ok(_) => Err(Error::SerializationError),
            Err(e) => Err(e),
        }
    }

    pub fn sign_timeout_with_qc(
        &mut self,
        timeout: &TwoChainTimeout,
        timeout_cert: Option<&TwoChainTimeoutCertificate>,
    ) -> (r: Result<Signature, Error>)
        ensures
            retry_post(
                old(self).inner(),
                final(self).log(),
                final(self).inner(),
                SafetyRulesInput::SignTimeoutWithQc(timeout, timeout_cert),
            ),
            r == as_signature(final(self).log().output),
            final(self).storage() == old(self).storage(),
    {
        match self.retry(SafetyRulesInput::SignTimeoutWithQc(timeout, timeout_cert)) {
            Ok(SafetyRulesOutput::Signature(s)) => Ok(s),
            Ok(_) => Err(Error::SerializationError),
            Err(e) => Err(e),
        }
    }

    pub fn construct_and_sign_vote(&mut self, vote_proposal: &VoteProposal) -> (r: Result<
        Vote,
        Error,
    >)
        ensures
            retry_post(
                old(self).inner(),
                final(self).log(),
                final(self).inner(),
                SafetyRulesInput::ConstructAndSignVote(vote_proposal),
            ),
            r == as_vote(final(self).log().output),
            final(self).storage() == old(self).storage(),
    {
        match self.retry(SafetyRulesInput::ConstructAndSignVote(vote_proposal)) {
            Ok(SafetyRulesOutput::Vote(v)) => Ok(v),
            Ok(_) => Err(Error::SerializationError),
            Err(e) => Err(e),
        }
    }

    pub fn construct_and_sign_vote_two_chain(
        &mut self,
        vote_proposal: &VoteProposal,
        timeout_cert: Option<&TwoChainTimeoutCertificate>,
    ) -> (r: Result<Vote, Error>)
        ensures
            retry_post(
                old(self).inner(),
                final(self).log(),
                final(self).inner(),
                SafetyRulesInput::ConstructAndSignVoteTwoChain(vote_proposal, timeout_cert),
            ),
            r == as_vote(final(self).log().output),
            final(self).storage() == old(self).storage(),
    {
        match self.retry(SafetyRulesInput::ConstructAndSignVoteTwoChain(vote_proposal, timeout_cert)) {
            Ok(SafetyRulesOutput::Vote(v)) => Ok(v),
            Ok(_) => Err(Error::SerializationError),
            Err(e) => Err(e),
        }
    }

    pub fn sign_commit_vote(
        &mut self,
        ledger_info: &LedgerInfoWithSignatures,
        new_ledger_info: &LedgerInfo,
    ) -> (r: Result<Signature, Error>)
        ensures
            retry_post(
                old(self).inner(),
                final(self).log(),
                final(self).inner(),
                SafetyRulesInput::SignCommitVote(ledger_info, new_ledger_info),
            ),
            r == as_signature(final(self).log().output),
            final(self).storage() == old(self).storage(),
    {
        match self.retry(SafetyRulesInput::SignCommitVote(ledger_info, new_ledger_info)) {
            Ok(SafetyRulesOutput::Signature(s)) => Ok(s),
            Ok(_) => Err(Error::SerializationError),
            Err(e) => Err(e),
        }
    }
}

/// The wrapper as an engine in its own right: each signing operation is the
/// retried one, `consensus_state` and `initialize` pass through.
impl<T: TSafetyRules, S: PersistentLivenessStorage> TSafetyRules for MetricsSafetyRules<T, S> {
    open spec fn state_post(self, new: Self, r: Result<ConsensusState, Error>) -> bool {
        self.inner().state_post(new.inner(), r) && new.storage() == self.storage()
    }

    open spec fn initialize_post(self, new: Self, proof: EpochChangeProof, r: Result<(), Error>) -> bool {
        self.inner().initialize_post(new.inner(), proof, r) && new.storage() == self.storage()
    }

    open spec fn proposal_post(self, new: Self, block_data: BlockData, r: Result<Signature, Error>) -> bool {
        &&& retry_post(self.inner(), new.log(), new.inner(), SafetyRulesInput::SignProposal(&block_data))
        &&& r == as_signature(new.log().output)
        &&& new.storage() == self.storage()
    }

    open spec fn timeout_post(self, new: Self, timeout: Timeout, r: Result<Signature, Error>) -> bool {
        &&& retry_post(self.inner(), new.log(), new.inner(), SafetyRulesInput::SignTimeout(&timeout))
        &&& r == as_signature(new.log().output)
        &&& new.storage() == self.storage()
    }

    open spec fn timeout_with_qc_post(
        self,
        new: Self,
        timeout: TwoChainTimeout,
        tc: Option<TwoChainTimeoutCertificate>,
        r: Result<Signature, Error>,
    ) -> bool {
        &&& retry_post(
            self.inner(),
            new.log(),
            new.inner(),
            SafetyRulesInput::SignTimeoutWithQc(&timeout, tc_ref(tc)),
        )
        &&& r == as_signature(new.log().output)
        &&& new.storage() == self.storage()
    }

    open spec fn vote_post(self, new: Self, proposal: VoteProposal, r: Result<Vote, Error>) -> bool {
        &&& retry_post(
            self.inner(),
            new.log(),
            new.inner(),
            SafetyRulesInput::ConstructAndSignVote(&proposal),
        )
        &&& r == as_vote(new.log().output)
        &&& new.storage() == self.storage()
    }

    open spec fn vote_two_chain_post(
        self,
        new: Self,
        proposal: VoteProposal,
        tc: Option<TwoChainTimeoutCertificate>,
        r: Result<Vote, Error>,
    ) -> bool {
        &&& retry_post(
            self.inner(),
            new.log(),
            new.inner(),
            SafetyRulesInput::ConstructAndSignVoteTwoChain(&proposal, tc_ref(tc)),
        )
        &&& r == as_vote(new.log().output)
        &&& new.storage() == self.storage()
    }

    open spec fn commit_post(
        self,
        new: Self,
        ledger_info: LedgerInfoWithSignatures,
        new_ledger_info: LedgerInfo,
        r: Result<Signature, Error>,
    ) -> bool {
        &&& retry_post(
            self.inner(),
            new.log(),
            new.inner(),
            SafetyRulesInput::SignCommitVote(&ledger_info, &new_ledger_info),
        )
        &&& r == as_signature(new.log().output)
        &&& new.storage() == self.storage()
    }

    fn consensus_state(&mut self) -> (r: Result<ConsensusState, Error>) {
        MetricsSafetyRules::consensus_state(self)
    }

    fn initialize(&mut self, proof: &EpochChangeProof) -> (r: Result<(), Error>) {
        MetricsSafetyRules::initialize(self, proof)
    }

    fn sign_proposal(&mut self, block_data: &BlockData) -> (r: Result<Signature, Error>) {
        MetricsSafetyRules::sign_proposal(self, block_data)
    }

    fn sign_timeout(&mut self, timeout: &Timeout) -> (r: Result<Signature, Error>) {
        MetricsSafetyRules::sign_timeout(self, timeout)
    }

    fn sign_timeout_with_qc(
        &mut self,
        timeout: &TwoChainTimeout,
        timeout_cert: Option<&TwoChainTimeoutCertificate>,
    ) -> (r: Result<Signature, Error>) {
        MetricsSafetyRules::sign_timeout_with_qc(self, timeout, timeout_cert)
    }

    fn construct_and_sign_vote(&mut self, vote_proposal: &VoteProposal) -> (r: Result<Vote, Error>) {
        MetricsSafetyRules::construct_and_sign_vote(self, vote_proposal)
    }

    fn construct_and_sign_vote_two_chain(
        &mut self,
        vote_proposal: &VoteProposal,
        timeout_cert: Option<&TwoChainTimeoutCertificate>,
    ) -> (r: Result<Vote, Error>) {
        MetricsSafetyRules::construct_and_sign_vote_two_chain(self, vote_proposal, timeout_cert)
    }

    fn sign_commit_vote(
        &mut self,
        ledger_info: &LedgerInfoWithSignatures,
        new_ledger_info: &LedgerInfo,
    ) -> (r: Result<Signature, Error>) {
        MetricsSafetyRules::sign_commit_vote(self, ledger_info, new_ledger_info)
    }
}

} // verus!
