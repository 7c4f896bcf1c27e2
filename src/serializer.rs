use vstd::prelude::*;

use crate::consensus_types::{
    BlockData, Timeout, TwoChainTimeout, TwoChainTimeoutCertificate, Vote, VoteProposal,
};
use crate::epoch_change::EpochChangeProof;
use crate::error::Error;
use crate::ledger_info::{LedgerInfo, LedgerInfoWithSignatures};
use crate::safety_data::ConsensusState;
use crate::safety_rules::{tc_of, SafetyRules};
use crate::t_safety_rules::TSafetyRules;
use crate::validator_set::Signature;

verus! {

/// An engine operation as a message, independent of how it travels. It refers
/// to the caller's arguments; a carrier that crosses a boundary encodes them.
#[derive(Clone, Copy, Debug)]
pub enum SafetyRulesInput<'a> {
    ConsensusState,
    Initialize(&'a EpochChangeProof),
    SignProposal(&'a BlockData),
    SignTimeout(&'a Timeout),
    SignTimeoutWithQc(&'a TwoChainTimeout, Option<&'a TwoChainTimeoutCertificate>),
    ConstructAndSignVote(&'a VoteProposal),
    ConstructAndSignVoteTwoChain(&'a VoteProposal, Option<&'a TwoChainTimeoutCertificate>),
    SignCommitVote(&'a LedgerInfoWithSignatures, &'a LedgerInfo),
}

/// The successful answer to a `SafetyRulesInput`.
#[derive(Clone, Debug, PartialEq, Eq)]
pub enum SafetyRulesOutput {
    ConsensusState(ConsensusState),
    Initialized,
    Signature(Signature),
    Vote(Vote),
}

/// How a request can fail on its way across the boundary.
#[derive(Clone, Copy, Debug, PartialEq, Eq, Structural)]
pub enum TransportError {
    /// The other side is gone.
    Disconnected,
    /// No answer came in time.
    TimedOut,
    /// The answer could not be decoded.
    Malformed,
}

/// The holder's answer, or the error that stands for a failed transport: a
/// lost or late answer is an `IoError`, an undecodable one a `SerializationError`.
pub open spec fn delivered(
    reply: Result<Result<SafetyRulesOutput, Error>, TransportError>,
) -> Result<SafetyRulesOutput, Error> {
    match reply {
        Ok(answer) => answer,
        Err(TransportError::Malformed) => Err(Error::SerializationError),
        Err(_) => Err(Error::IoError),
    }
}

/// The holder's answer, or the error that stands for a failed transport.
pub fn from_transport(reply: Result<Result<SafetyRulesOutput, Error>, TransportError>) -> (r:
    Result<SafetyRulesOutput, Error>)
    ensures
        r == delivered(reply),
{
    match reply {
        Ok(answer) => answer,
        Err(TransportError::Malformed) => Err(Error::SerializationError),
        Err(_) => Err(Error::IoError),
    }
}

/// The consensus state in an answer; any other answer is malformed.
pub open spec fn as_state(r: Result<SafetyRulesOutput, Error>) -> Result<ConsensusState, Error> {
    match r {
        Ok(SafetyRulesOutput::ConsensusState(cs)) => Ok(cs),
        Ok(_) => Err(Error::SerializationError),
        Err(e) => Err(e),
    }
}

/// Success of `initialize` in an answer; any other answer is malformed.
pub open spec fn as_unit(r: Result<SafetyRulesOutput, Error>) -> Result<(), Error> {
    match r {
        Ok(SafetyRulesOutput::Initialized) => Ok(()),
        Ok(_) => Err(Error::SerializationError),
        Err(e) => Err(e),
    }
}

/// The signature in an answer; any other answer is malformed.
pub open spec fn as_signature(r: Result<SafetyRulesOutput, Error>) -> Result<Signature, Error> {
    match r {
        Ok(SafetyRulesOutput::Signature(s)) => Ok(s),
        Ok(_) => Err(Error::SerializationError),
        Err(e) => Err(e),
    }
}

/// The vote in an answer; any other answer is malformed.
pub open spec fn as_vote(r: Result<SafetyRulesOutput, Error>) -> Result<Vote, Error> {
    match r {
        Ok(SafetyRulesOutput::Vote(v)) => Ok(v),
        Ok(_) => Err(Error::SerializationError),
        Err(e) => Err(e),
    }
}


/// A reference to the certificate, if there is one.
pub open spec fn tc_ref<'a>(tc: Option<TwoChainTimeoutCertificate>) -> Option<&'a TwoChainTimeoutCertificate> {
    match tc {
        Some(t) => Some(&t),
        None => None,
    }
}

/// Whether an answer is of the kind that `input` asks for (an error always is).
pub open spec fn answers(input: SafetyRulesInput, r: Result<SafetyRulesOutput, Error>) -> bool {
    match r {
        Err(_) => true,
        Ok(o) => match input {
            SafetyRulesInput::ConsensusState => o is ConsensusState,
            SafetyRulesInput::Initialize(_) => o is Initialized,
            SafetyRulesInput::ConstructAndSignVote(_) => o is Vote,
            SafetyRulesInput::ConstructAndSignVoteTwoChain(_, _) => o is Vote,
            _ => o is Signature,
        },
    }
}

/// The outcome of running `input` on an engine that goes from `old` to `new`
/// and answers `r`: the answer is of the right kind, and the engine's own
/// relation for that operation holds of it.
pub open spec fn outcome<T: TSafetyRules>(
    old: T,
    new: T,
    input: SafetyRulesInput,
    r: Result<SafetyRulesOutput, Error>,
) -> bool {
    &&& answers(input, r)
    &&& match input {
        SafetyRulesInput::ConsensusState => old.state_post(new, as_state(r)),
        SafetyRulesInput::Initialize(p) => old.initialize_post(new, *p, as_unit(r)),
        SafetyRulesInput::SignProposal(b) => old.proposal_post(new, *b, as_signature(r)),
        SafetyRulesInput::SignTimeout(t) => old.timeout_post(new, *t, as_signature(r)),
        SafetyRulesInput::SignTimeoutWithQc(t, tc) => old.timeout_with_qc_post(
            new,
            *t,
            tc_of(tc),
            as_signature(r),
        ),
        SafetyRulesInput::ConstructAndSignVote(p) => old.vote_post(new, *p, as_vote(r)),
        SafetyRulesInput::ConstructAndSignVoteTwoChain(p, tc) => old.vote_two_chain_post(
            new,
            *p,
            tc_of(tc),
            as_vote(r),
        ),
        SafetyRulesInput::SignCommitVote(li, new_li) => old.commit_post(
            new,
            *li,
            *new_li,
            as_signature(r),
        ),
    }
}

/// Runs one request against an engine, as a direct call would.
pub fn dispatch<T: TSafetyRules>(engine: &mut T, input: SafetyRulesInput) -> (r: Result<
    SafetyRulesOutput,
    Error,
>)
    ensures
        outcome(*old(engine), *final(engine), input, r),
{
    match input {
        SafetyRulesInput::ConsensusState => match engine.consensus_state() {
            Ok(cs) => Ok(SafetyRulesOutput::ConsensusState(cs)),
            Err(e) => Err(e),
        },
        SafetyRulesInput::Initialize(p) => {
            let r0 = engine.initialize(p);
            match r0 {
                Ok(()) => {
                    assert(r0 == Ok::<(), Error>(r0->Ok_0));
                    Ok(SafetyRulesOutput::Initialized)
                },
                Err(e) => Err(e),
            }
        },
        SafetyRulesInput::SignProposal(b) => match engine.sign_proposal(b) {
            Ok(s) => Ok(SafetyRulesOutput::Signature(s)),
            Err(e) => Err(e),
        },
        SafetyRulesInput::SignTimeout(t) => match engine.sign_timeout(t) {
            Ok(s) => Ok(SafetyRulesOutput::Signature(s)),
            Err(e) => Err(e),
        },
        SafetyRulesInput::SignTimeoutWithQc(t, tc) => match engine.sign_timeout_with_qc(t, tc) {
            Ok(s) => Ok(SafetyRulesOutput::Signature(s)),
            Err(e) => Err(e),
        },
        SafetyRulesInput::ConstructAndSignVote(p) => match engine.construct_and_sign_vote(p) {
            Ok(v) => Ok(SafetyRulesOutput::Vote(v)),
            Err(e) => Err(e),
        },
        SafetyRulesInput::ConstructAndSignVoteTwoChain(p, tc) => match engine.construct_and_sign_vote_two_chain(
            p,
            tc,
        ) {
            Ok(v) => Ok(SafetyRulesOutput::Vote(v)),
            Err(e) => Err(e),
        },
        SafetyRulesInput::SignCommitVote(li, new_li) => match engine.sign_commit_vote(li, new_li) {
            Ok(s) => Ok(SafetyRulesOutput::Signature(s)),
            Err(e) => Err(e),
        },
    }
}

impl SafetyRules {
    /// Runs one request against the engine, as a direct call would.
    pub fn handle_message(&mut self, input: SafetyRulesInput) -> (r: Result<
        SafetyRulesOutput,
        Error,
    >)
        ensures
            outcome(*old(self), *final(self), input, r),
    {
        dispatch(self, input)
    }
}

/// A carrier that takes a request to the holder of the signing key and brings
/// back the holder's answer, or says how it failed.
pub trait Transport: Sized {
    /// What a request for `input` brings back, and the state it leaves the carrier in.
    spec fn request_post(
        self,
        new: Self,
        input: SafetyRulesInput,
        reply: Result<Result<SafetyRulesOutput, Error>, TransportError>,
    ) -> bool;

    fn request(&mut self, input: SafetyRulesInput) -> (reply: Result<
        Result<SafetyRulesOutput, Error>,
        TransportError,
    >)
        ensures
            old(self).request_post(*final(self), input, reply),
    ;
}

/// The in-process carrier: the engine itself answers, nothing is encoded.
pub struct LocalTransport {
    pub engine: SafetyRules,
}

impl Transport for LocalTransport {
    open spec fn request_post(
        self,
        new: Self,
        input: SafetyRulesInput,
        reply: Result<Result<SafetyRulesOutput, Error>, TransportError>,
    ) -> bool {
        reply matches Ok(answer) && outcome(self.engine, new.engine, input, answer)
    }

    fn request(&mut self, input: SafetyRulesInput) -> (reply: Result<
        Result<SafetyRulesOutput, Error>,
        TransportError,
    >) {
        Ok(self.engine.handle_message(input))
    }
}

/// The caller's side of the boundary: each operation becomes a request on the
/// transport, and the answer comes back with the holder's own errors intact.
pub struct SerializerClient<T> {
    transport: T,
    last_reply: Ghost<Option<Result<Result<SafetyRulesOutput, Error>, TransportError>>>,
}

/// The client went from `old` to `new` by sending `input` once on its
/// transport, which brought back the reply now recorded.
pub open spec fn sent<T: Transport>(
    old: SerializerClient<T>,
    new: SerializerClient<T>,
    input: SafetyRulesInput,
) -> bool {
    &&& new.last_reply() is Some
    &&& old.transport().request_post(new.transport(), input, new.last_reply()->Some_0)
}

/// The answer, or the transport's failure, of the last request.
pub open spec fn received<T: Transport>(c: SerializerClient<T>) -> Result<SafetyRulesOutput, Error> {
    delivered(c.last_reply()->Some_0)
}

impl<T: Transport> SerializerClient<T> {
    /// What the transport brought back for the last request.
    pub closed spec fn last_reply(self) -> Option<
        Result<Result<SafetyRulesOutput, Error>, TransportError>,
    > {
        self.last_reply@
    }

    pub closed spec fn transport(self) -> T {
        self.transport
    }

    pub fn new(transport: T) -> (r: Self)
        ensures
            r.last_reply() is None,
            r.transport() == transport,
    {
        SerializerClient { transport, last_reply: Ghost(None) }
    }

    fn send(&mut self, input: SafetyRulesInput) -> (r: Result<SafetyRulesOutput, Error>)
        ensures
            sent(*old(self), *final(self), input),
            r == received(*final(self)),
    {
        let reply = self.transport.request(input);
        let ghost g = Some(reply);
        self.last_reply = Ghost(g);
        from_transport(reply)
    }

    fn signature_of(&mut self, input: SafetyRulesInput) -> (r: Result<Signature, Error>)
        ensures
            sent(*old(self), *final(self), input),
            r == as_signature(received(*final(self))),
    {
        match self.send(input) {
            Ok(SafetyRulesOutput::Signature(s)) => Ok(s),
            Ok(_) => Err(Error::SerializationError),
            Err(e) => Err(e),
        }
    }

    fn vote_of(&mut self, input: SafetyRulesInput) -> (r: Result<Vote, Error>)
        ensures
            sent(*old(self), *final(self), input),
            r == as_vote(received(*final(self))),
    {
        match self.send(input) {
            Ok(SafetyRulesOutput::Vote(v)) => Ok(v),
            Ok(_) => Err(Error::SerializationError),
            Err(e) => Err(e),
        }
    }
}

impl<T: Transport> TSafetyRules for SerializerClient<T> {
    open spec fn state_post(self, new: Self, r: Result<ConsensusState, Error>) -> bool {
        sent(self, new, SafetyRulesInput::ConsensusState) && r == as_state(received(new))
    }

    open spec fn initialize_post(self, new: Self, proof: EpochChangeProof, r: Result<(), Error>) -> bool {
        sent(self, new, SafetyRulesInput::Initialize(&proof)) && r == as_unit(received(new))
    }

    open spec fn proposal_post(self, new: Self, block_data: BlockData, r: Result<Signature, Error>) -> bool {
        sent(self, new, SafetyRulesInput::SignProposal(&block_data)) && r == as_signature(received(new))
    }

    open spec fn timeout_post(self, new: Self, timeout: Timeout, r: Result<Signature, Error>) -> bool {
        sent(self, new, SafetyRulesInput::SignTimeout(&timeout)) && r == as_signature(received(new))
    }

    open spec fn timeout_with_qc_post(
        self,
        new: Self,
        timeout: TwoChainTimeout,
        tc: Option<TwoChainTimeoutCertificate>,
        r: Result<Signature, Error>,
    ) -> bool {
        &&& sent(self, new, SafetyRulesInput::SignTimeoutWithQc(&timeout, tc_ref(tc)))
        &&& r == as_signature(received(new))
    }

    open spec fn vote_post(self, new: Self, proposal: VoteProposal, r: Result<Vote, Error>) -> bool {
        sent(self, new, SafetyRulesInput::ConstructAndSignVote(&proposal)) && r == as_vote(received(new))
    }

    open spec fn vote_two_chain_post(
        self,
        new: Self,
        proposal: VoteProposal,
        tc: Option<TwoChainTimeoutCertificate>,
        r: Result<Vote, Error>,
    ) -> bool {
        &&& sent(self, new, SafetyRulesInput::ConstructAndSignVoteTwoChain(&proposal, tc_ref(tc)))
        &&& r == as_vote(received(new))
    }

    open spec fn commit_post(
        self,
        new: Self,
        ledger_info: LedgerInfoWithSignatures,
        new_ledger_info: LedgerInfo,
        r: Result<Signature, Error>,
    ) -> bool {
        sent(self, new, SafetyRulesInput::SignCommitVote(&ledger_info, &new_ledger_info)) && r
            == as_signature(received(new))
    }

    fn consensus_state(&mut self) -> (r: Result<ConsensusState, Error>) {
        match self.send(SafetyRulesInput::ConsensusState) {
            Ok(SafetyRulesOutput::ConsensusState(cs)) => Ok(cs),
            Ok(_) => Err(Error::SerializationError),
            Err(e) => Err(e),
        }
    }

    fn initialize(&mut self, proof: &EpochChangeProof) -> (r: Result<(), Error>) {
        match self.send(SafetyRulesInput::Initialize(proof)) {
            Ok(SafetyRulesOutput::Initialized) => Ok(()),
            Ok(_) => Err(Error::SerializationError),
            Err(e) => Err(e),
        }
    }

    fn sign_proposal(&mut self, block_data: &BlockData) -> (r: Result<Signature, Error>) {
        self.signature_of(SafetyRulesInput::SignProposal(block_data))
    }

    fn sign_timeout(&mut self, timeout: &Timeout) -> (r: Result<Signature, Error>) {
        self.signature_of(SafetyRulesInput::SignTimeout(timeout))
    }

    fn sign_timeout_with_qc(
        &mut self,
        timeout: &TwoChainTimeout,
        timeout_cert: Option<&TwoChainTimeoutCertificate>,
    ) -> (r: Result<Signature, Error>) {
        self.signature_of(SafetyRulesInput::SignTimeoutWithQc(timeout, timeout_cert))
    }

    fn construct_and_sign_vote(&mut self, vote_proposal: &VoteProposal) -> (r: Result<Vote, Error>) {
        self.vote_of(SafetyRulesInput::ConstructAndSignVote(vote_proposal))
    }

    fn construct_and_sign_vote_two_chain(
        &mut self,
        vote_proposal: &VoteProposal,
        timeout_cert: Option<&TwoChainTimeoutCertificate>,
    ) -> (r: Result<Vote, Error>) {
        self.vote_of(SafetyRulesInput::ConstructAndSignVoteTwoChain(vote_proposal, timeout_cert))
    }

    fn sign_commit_vote(
        &mut self,
        ledger_info: &LedgerInfoWithSignatures,
        new_ledger_info: &LedgerInfo,
    ) -> (r: Result<Signature, Error>) {
        self.signature_of(SafetyRulesInput::SignCommitVote(ledger_info, new_ledger_info))
    }
}

} // verus!
