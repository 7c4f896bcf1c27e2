use vstd::prelude::*;

use crate::account::AccountAddress;
use crate::consensus_types::{
    block_enc, timeout_enc, two_chain_timeout_enc, vote_data_enc, vote_data_of, BlockData, Timeout,
    TwoChainTimeout, TwoChainTimeoutCertificate, Vote, VoteProposal,
};
use crate::epoch_change::{verify_epoch_change, verify_outcome, EpochChangeProof};
use crate::error::Error;
use crate::ledger_info::{
    ends_epoch, ledger_info_enc, matches_waypoint, quorum_signed, verify_quorum, EpochState,
    LedgerInfo, LedgerInfoWithSignatures, Waypoint,
};
use crate::safety_data::{fresh_epoch, ConsensusState, PersistentSafetyStorage, SafetyData};
use crate::validator_set::{lookup, signs, Signature, ValidatorSigner};
use crate::encoding::bytes_equal;

verus! {

/// The certificate of a block lies below it and above the certificate's own parent.
pub open spec fn qc_well_formed(b: BlockData) -> bool {
    b.quorum_cert.parent_round <= b.quorum_cert.certified_round && b.quorum_cert.certified_round
        < b.round
}

/// Why a vote for `b` is refused, if it is.
pub open spec fn vote_error(es: Option<EpochState>, sd: SafetyData, b: BlockData) -> Option<
    Error,
> {
    if es is None {
        Some(Error::NotInitialized)
    } else if b.epoch != sd.epoch {
        Some(Error::IncorrectEpoch(b.epoch, sd.epoch))
    } else if !qc_well_formed(b) || b.round <= sd.last_voted_round
        || b.quorum_cert.certified_round < sd.preferred_round {
        Some(Error::InvalidOrdering)
    } else {
        None
    }
}

/// Whether the two-chain rule lets this validator vote for `b`: `b` extends the
/// block certified in the round just before it, or the round before it timed out
/// and `b`'s certificate is at least as high as any that the timeout saw.
pub open spec fn safe_to_vote(b: BlockData, tc: Option<TwoChainTimeoutCertificate>) -> bool {
    b.round == b.quorum_cert.certified_round + 1 || (tc matches Some(t) && b.round == t.round + 1
        && b.quorum_cert.certified_round >= t.highest_hqc_round)
}

/// Why a two-chain vote for `b` is refused, if it is.
pub open spec fn vote_two_chain_error(
    es: Option<EpochState>,
    sd: SafetyData,
    b: BlockData,
    tc: Option<TwoChainTimeoutCertificate>,
) -> Option<Error> {
    if es is None {
        Some(Error::NotInitialized)
    } else if b.epoch != sd.epoch {
        Some(Error::IncorrectEpoch(b.epoch, sd.epoch))
    } else if tc matches Some(t) && t.epoch != sd.epoch {
        Some(Error::IncorrectEpoch(tc->Some_0.epoch, sd.epoch))
    } else if vote_error(es, sd, b) is Some || !safe_to_vote(b, tc) {
        Some(Error::InvalidOrdering)
    } else {
        None
    }
}

/// The round state after a vote for `b`: its round is the last voted, and the
/// parent round of its certificate becomes the preferred round if higher.
pub open spec fn after_vote(sd: SafetyData, b: BlockData) -> SafetyData {
    SafetyData {
        last_voted_round: b.round,
        preferred_round: if b.quorum_cert.parent_round > sd.preferred_round {
            b.quorum_cert.parent_round
        } else {
            sd.preferred_round
        },
        ..sd
    }
}

/// Whether `v` is `s`'s signed vote for `b`.
pub open spec fn vote_for(v: Vote, b: BlockData, s: ValidatorSigner) -> bool {
    &&& vote_data_of(v.vote_data, b)
    &&& v.author == s.author
    &&& signs(v.signature, s.public_key, vote_data_enc(v.vote_data))
}

/// Why signing the proposal `b` is refused, if it is: only the epoch and the
/// author are checked.
pub open spec fn proposal_error(
    es: Option<EpochState>,
    sd: SafetyData,
    author: AccountAddress,
    b: BlockData,
) -> Option<Error> {
    if es is None {
        Some(Error::NotInitialized)
    } else if b.epoch != sd.epoch {
        Some(Error::IncorrectEpoch(b.epoch, sd.epoch))
    } else if b.author != author {
        Some(Error::NotAuthorized)
    } else {
        None
    }
}

/// Why a timeout for `round` of `epoch` is refused, if it is.
pub open spec fn timeout_error(es: Option<EpochState>, sd: SafetyData, epoch: u64, round: u64) -> Option<
    Error,
> {
    if es is None {
        Some(Error::NotInitialized)
    } else if epoch != sd.epoch {
        Some(Error::IncorrectEpoch(epoch, sd.epoch))
    } else if round < sd.last_voted_round {
        Some(Error::InvalidOrdering)
    } else {
        None
    }
}

/// The certificate that an optional reference points to.
pub open spec fn tc_of(tc: Option<&TwoChainTimeoutCertificate>) -> Option<
    TwoChainTimeoutCertificate,
> {
    match tc {
        Some(t) => Some(*t),
        None => None,
    }
}

/// The round of a timeout certificate; 0 without one.
pub open spec fn tc_round(tc: Option<TwoChainTimeoutCertificate>) -> int {
    match tc {
        Some(t) => t.round as int,
        None => 0,
    }
}

/// Whether a two-chain timeout follows the highest certified round, or a timed out round.
pub open spec fn safe_to_timeout(t: TwoChainTimeout, tc: Option<TwoChainTimeoutCertificate>) -> bool {
    t.round == t.hqc_round + 1 || t.round == tc_round(tc) + 1
}

/// Why a two-chain timeout is refused, if it is.
pub open spec fn timeout_two_chain_error(
    es: Option<EpochState>,
    sd: SafetyData,
    t: TwoChainTimeout,
    tc: Option<TwoChainTimeoutCertificate>,
) -> Option<Error> {
    if es is None {
        Some(Error::NotInitialized)
    } else if t.epoch != sd.epoch {
        Some(Error::IncorrectEpoch(t.epoch, sd.epoch))
    } else if tc matches Some(c) && c.epoch != sd.epoch {
        Some(Error::IncorrectEpoch(tc->Some_0.epoch, sd.epoch))
    } else if !safe_to_timeout(t, tc) || t.round < sd.last_voted_round {
        Some(Error::InvalidOrdering)
    } else {
        None
    }
}

/// The round state after a timeout for `round`: no vote at or below it follows.
pub open spec fn after_timeout(sd: SafetyData, round: u64) -> SafetyData {
    if round > sd.last_voted_round {
        SafetyData { last_voted_round: round, ..sd }
    } else {
        sd
    }
}

/// Why a commit vote for `new` is refused, if it is: `old` must be this epoch's
/// ordered ledger info, signed by a quorum; `new` must be the same block, above
/// every commit already signed.
pub open spec fn commit_error(
    es: Option<EpochState>,
    sd: SafetyData,
    old: LedgerInfoWithSignatures,
    new: LedgerInfo,
) -> Option<Error> {
    if es is None {
        Some(Error::NotInitialized)
    } else if old.ledger_info.epoch != sd.epoch {
        Some(Error::IncorrectEpoch(old.ledger_info.epoch, sd.epoch))
    } else if !quorum_signed(
        es->Some_0.verifier@,
        old.signatures@,
        ledger_info_enc(old.ledger_info),
    ) || new.epoch != old.ledger_info.epoch || new.round != old.ledger_info.round || new.id@
        != old.ledger_info.id@ || new.round <= sd.last_committed_round {
        Some(Error::InvalidOrdering)
    } else {
        None
    }
}

/// The round state after a commit vote for `new`.
pub open spec fn after_commit(sd: SafetyData, new: LedgerInfo) -> SafetyData {
    SafetyData { last_committed_round: new.round, ..sd }
}

/// The round state after accepting a proof that ends in `epoch`: a newer epoch
/// starts with all rounds at zero; otherwise nothing changes.
pub open spec fn after_initialize(sd: SafetyData, epoch: u64) -> SafetyData {
    if epoch > sd.epoch {
        fresh_epoch(epoch)
    } else {
        sd
    }
}

/// Whether `author` is a validator of the established epoch.
pub open spec fn in_set(es: Option<EpochState>, author: AccountAddress) -> bool {
    es matches Some(e) && lookup(e.verifier@, author) is Some
}

/// What a snapshot of `s` holds.
pub open spec fn consensus_state_post(s: SafetyRules, r: ConsensusState) -> bool {
    &&& r.epoch == s.data().epoch
    &&& r.last_voted_round == s.data().last_voted_round
    &&& r.preferred_round == s.data().preferred_round
    &&& r.waypoint.version == s.waypoint_spec().version
    &&& r.waypoint.value@ == s.waypoint_spec().value@
    &&& r.in_validator_set == in_set(s.epoch_state(), s.signer_spec().author)
}

/// What `initialize` does: on a proof that does not verify, nothing changes and the
/// verifier's error is returned; otherwise the state moves to the epoch the proof ends in.
pub open spec fn initialize_post(old: SafetyRules, new: SafetyRules, proof: EpochChangeProof, r: Result<(), Error>) -> bool {
    &&& (old.wf() ==> new.wf())
    &&& new.signer_spec() == old.signer_spec()
    &&& (verify_outcome(old.waypoint_spec(), proof.ledger_info_with_sigs@) matches Err(e) ==> r == Err::<(), Error>(e) && new == old)
    &&& (verify_outcome(old.waypoint_spec(), proof.ledger_info_with_sigs@) is Ok ==> {
        let last = proof.ledger_info_with_sigs@.last().ledger_info;
        let next = last.next_epoch_state->Some_0;
        &&& r is Ok
        &&& ends_epoch(last)
        &&& new.data() == after_initialize(old.data(), next.epoch)
        &&& (last.version > old.waypoint_spec().version ==> matches_waypoint(last, new.waypoint_spec()))
        &&& (last.version <= old.waypoint_spec().version ==> new.waypoint_spec() == old.waypoint_spec())
        &&& (next.epoch >= old.data().epoch ==> (new.epoch_state() matches Some(e) && e.epoch
            == next.epoch && e.verifier@ == next.verifier@))
        &&& (next.epoch < old.data().epoch ==> new.epoch_state() == old.epoch_state())
    })
}

/// What a three-chain vote does: `vote_error` decides; a refusal changes nothing,
/// an accepted vote stores `after_vote` and returns the signed vote.
pub open spec fn vote_post(old: SafetyRules, new: SafetyRules, proposal: VoteProposal, r: Result<Vote, Error>) -> bool {
    &&& (old.wf() ==> new.wf())
    &&& new.epoch_state() == old.epoch_state()
    &&& new.waypoint_spec() == old.waypoint_spec()
    &&& new.signer_spec() == old.signer_spec()
    &&& (vote_error(old.epoch_state(), old.data(), proposal.block) matches Some(e) ==> r == Err::<Vote, Error>(e) && new.data() == old.data())
    &&& (vote_error(old.epoch_state(), old.data(), proposal.block) is None ==> (r matches Ok(v) && vote_for(v, proposal.block, old.signer_spec()) && new.data() == after_vote(old.data(), proposal.block)))
}

/// What a two-chain vote does: `vote_two_chain_error` decides; a refusal changes
/// nothing, an accepted vote stores `after_vote` and returns the signed vote.
pub open spec fn vote_two_chain_post(
    old: SafetyRules,
    new: SafetyRules,
    proposal: VoteProposal,
    tc: Option<TwoChainTimeoutCertificate>,
    r: Result<Vote, Error>,
) -> bool {
    &&& (old.wf() ==> new.wf())
    &&& new.epoch_state() == old.epoch_state()
    &&& new.waypoint_spec() == old.waypoint_spec()
    &&& new.signer_spec() == old.signer_spec()
    &&& (vote_two_chain_error(old.epoch_state(), old.data(), proposal.block, tc) matches Some(e) ==> r == Err::<Vote, Error>(e) && new.data() == old.data())
    &&& (vote_two_chain_error(old.epoch_state(), old.data(), proposal.block, tc) is None ==> (r matches Ok(v) && vote_for(v, proposal.block, old.signer_spec()) && new.data() == after_vote(old.data(), proposal.block)))
}

/// What signing a proposal returns: `proposal_error` decides; the state never changes.
pub open spec fn proposal_post(s: SafetyRules, block_data: BlockData, r: Result<Signature, Error>) -> bool {
    &&& (proposal_error(s.epoch_state(), s.data(), s.signer_spec().author, block_data) matches Some(e) ==> r == Err::<Signature, Error>(e))
    &&& (proposal_error(s.epoch_state(), s.data(), s.signer_spec().author, block_data) is None ==> (r matches Ok(sig) && signs(sig, s.signer_spec().public_key, block_enc(block_data))))
}

/// What signing a timeout does: `timeout_error` decides; an accepted timeout stores
/// `after_timeout` and returns the signature.
pub open spec fn timeout_post(old: SafetyRules, new: SafetyRules, timeout: Timeout, r: Result<Signature, Error>) -> bool {
    &&& (old.wf() ==> new.wf())
    &&& new.epoch_state() == old.epoch_state()
    &&& new.waypoint_spec() == old.waypoint_spec()
    &&& new.signer_spec() == old.signer_spec()
    &&& (timeout_error(old.epoch_state(), old.data(), timeout.epoch, timeout.round) matches Some(e) ==> r == Err::<Signature, Error>(e) && new.data() == old.data())
    &&& (timeout_error(old.epoch_state(), old.data(), timeout.epoch, timeout.round) is None ==> (r matches Ok(s) && signs(s, old.signer_spec().public_key, timeout_enc(timeout)) && new.data() == after_timeout(old.data(), timeout.round)))
}

/// What signing a two-chain timeout does: `timeout_two_chain_error` decides; an
/// accepted timeout stores `after_timeout` and returns the signature.
pub open spec fn timeout_with_qc_post(
    old: SafetyRules,
    new: SafetyRules,
    timeout: TwoChainTimeout,
    tc: Option<TwoChainTimeoutCertificate>,
    r: Result<Signature, Error>,
) -> bool {
    &&& (old.wf() ==> new.wf())
    &&& new.epoch_state() == old.epoch_state()
    &&& new.waypoint_spec() == old.waypoint_spec()
    &&& new.signer_spec() == old.signer_spec()
    &&& (timeout_two_chain_error(old.epoch_state(), old.data(), timeout, tc) matches Some(e) ==> r == Err::<Signature, Error>(e) && new.data() == old.data())
    &&& (timeout_two_chain_error(old.epoch_state(), old.data(), timeout, tc) is None ==> (r matches Ok(s) && signs(s, old.signer_spec().public_key, two_chain_timeout_enc(timeout)) && new.data() == after_timeout(old.data(), timeout.round)))
}

/// What a commit vote does: `commit_error` decides; an accepted commit stores
/// `after_commit` and returns the signature.
pub open spec fn commit_post(
    old: SafetyRules,
    new: SafetyRules,
    ledger_info: LedgerInfoWithSignatures,
    new_ledger_info: LedgerInfo,
    r: Result<Signature, Error>,
) -> bool {
    &&& (old.wf() ==> new.wf())
    &&& new.epoch_state() == old.epoch_state()
    &&& new.waypoint_spec() == old.waypoint_spec()
    &&& new.signer_spec() == old.signer_spec()
    &&& (commit_error(old.epoch_state(), old.data(), ledger_info, new_ledger_info) matches Some(e) ==> r == Err::<Signature, Error>(e) && new.data() == old.data())
    &&& (commit_error(old.epoch_state(), old.data(), ledger_info, new_ledger_info) is None ==> (r matches Ok(s) && signs(s, old.signer_spec().public_key, ledger_info_enc(new_ledger_info)) && new.data() == after_commit(old.data(), new_ledger_info)))
}

/// The safety rules engine of one validator: it decides whether signing is safe,
/// persists the round state that the decision implies, and only then signs.
pub struct SafetyRules {
    storage: PersistentSafetyStorage,
    epoch_state: Option<EpochState>,
}

impl SafetyRules {
    pub closed spec fn storage_spec(&self) -> PersistentSafetyStorage {
        self.storage
    }

    /// The established epoch and its validators; `None` before `initialize`.
    pub closed spec fn epoch_state(&self) -> Option<EpochState> {
        self.epoch_state
    }

    pub open spec fn data(&self) -> SafetyData {
        self.storage_spec().data()
    }

    pub open spec fn waypoint_spec(&self) -> Waypoint {
        self.storage_spec().waypoint_spec()
    }

    pub open spec fn signer_spec(&self) -> ValidatorSigner {
        self.storage_spec().signer_spec()
    }

    /// The stored state is well formed, and an established epoch is the stored one.
    pub open spec fn wf(&self) -> bool {
        &&& self.storage_spec().wf()
        &&& (self.epoch_state() matches Some(e) ==> e.epoch == self.data().epoch)
    }

    /// An engine over `storage`, as after a start: no epoch is established
    /// until `initialize`.
    pub fn new(storage: PersistentSafetyStorage) -> (r: SafetyRules)
        requires
            storage.wf(),
        ensures
            r.storage_spec() == storage,
            r.epoch_state() is None,
            r.wf(),
    {
        SafetyRules { storage, epoch_state: None }
    }

    /// The durable record.
    pub fn storage(&self) -> (r: &PersistentSafetyStorage)
        ensures
            *r == self.storage_spec(),
    {
        &self.storage
    }

    /// Gives up the engine and hands back its durable record.
    pub fn into_storage(self) -> (r: PersistentSafetyStorage)
        ensures
            r == self.storage_spec(),
    {
        self.storage
    }

    /// A snapshot of the state.
    pub fn consensus_state(&self) -> (r: ConsensusState)
        ensures
            consensus_state_post(*self, r),
    {
        let sd = self.storage.safety_data();
        let author = self.storage.signer().author;
        let in_validator_set = match &self.epoch_state {
            Some(e) => e.verifier.lookup(author).is_some(),
            None => false,
        };
        ConsensusState {
            epoch: sd.epoch,
            last_voted_round: sd.last_voted_round,
            preferred_round: sd.preferred_round,
            waypoint: self.storage.waypoint().duplicate(),
            in_validator_set,
        }
    }

    /// Checks `proof` against the stored waypoint and moves to the epoch it ends
    /// in. A newer epoch resets the rounds to zero; the current epoch is loaded
    /// with its rounds kept; an older epoch changes nothing.
    pub fn initialize(&mut self, proof: &EpochChangeProof) -> (r: Result<(), Error>)
        ensures
            initialize_post(*old(self), *final(self), *proof, r),
    {
        let (waypoint, next) = verify_epoch_change(self.storage.waypoint(), proof)?;
        if waypoint.version > self.storage.waypoint().version {
            self.storage.set_waypoint(waypoint);
        }
        let sd = self.storage.safety_data();
        if next.epoch > sd.epoch {
            self.storage.set_safety_data(SafetyData::new(next.epoch, 0, 0));
            self.epoch_state = Some(next);
        } else if next.epoch == sd.epoch {
            self.epoch_state = Some(next);
        }
        Ok(())
    }

    /// Signs a vote for the proposed block, under the three-chain rule: the round
    /// must be above the last voted one, and the block's certificate must not be
    /// below the preferred round. The new round state is stored before signing.
    pub fn construct_and_sign_vote(&mut self, proposal: &VoteProposal) -> (r: Result<Vote, Error>)
        ensures
            vote_post(*old(self), *final(self), *proposal, r),
    {
        if let Some(e) = self.vote_check(&proposal.block) {
            return Err(e);
        }
        Ok(self.vote_and_store(&proposal.block))
    }

    /// Signs a vote for the proposed block, under the two-chain rule: besides the
    /// checks of a three-chain vote, the block must follow the certified round
    /// or a timed out round (see `safe_to_vote`).
    pub fn construct_and_sign_vote_two_chain(
        &mut self,
        proposal: &VoteProposal,
        timeout_cert: Option<&TwoChainTimeoutCertificate>,
    ) -> (r: Result<Vote, Error>)
        ensures
            vote_two_chain_post(*old(self), *final(self), *proposal, tc_of(timeout_cert), r),
    {
        let b = &proposal.block;
        let sd = self.storage.safety_data();
        if self.epoch_state.is_none() {
            return Err(Error::NotInitialized);
        }
        if b.epoch != sd.epoch {
            return Err(Error::IncorrectEpoch(b.epoch, sd.epoch));
        }
        if let Some(t) = timeout_cert {
            if t.epoch != sd.epoch {
                return Err(Error::IncorrectEpoch(t.epoch, sd.epoch));
            }
        }
        if self.vote_check(b).is_some() {
            return Err(Error::InvalidOrdering);
        }
        let qc_round = b.quorum_cert.certified_round;
        let follows_qc = b.round - 1 == qc_round;
        let follows_tc = match timeout_cert {
            Some(t) => b.round - 1 == t.round && qc_round >= t.highest_hqc_round,
            None => false,
        };
        if !follows_qc && !follows_tc {
            return Err(Error::InvalidOrdering);
        }
        Ok(self.vote_and_store(b))
    }

    /// The verdict of `vote_error`.
    fn vote_check(&self, b: &BlockData) -> (r: Option<Error>)
        ensures
            r == vote_error(self.epoch_state(), self.data(), *b),
    {
        let sd = self.storage.safety_data();
        if self.epoch_state.is_none() {
            return Some(Error::NotInitialized);
        }
        if b.epoch != sd.epoch {
            return Some(Error::IncorrectEpoch(b.epoch, sd.epoch));
        }
        let qc = &b.quorum_cert;
        if !(qc.parent_round <= qc.certified_round && qc.certified_round < b.round)
            || b.round <= sd.last_voted_round || qc.certified_round < sd.preferred_round {
            return Some(Error::InvalidOrdering);
        }
        None
    }

    /// Stores the round state of a vote for `b`, then signs the vote.
    fn vote_and_store(&mut self, b: &BlockData) -> (v: Vote)
        requires
            vote_error(old(self).epoch_state(), old(self).data(), *b) is None,
        ensures
            final(self).wf() || !old(self).wf(),
            final(self).epoch_state() == old(self).epoch_state(),
            final(self).waypoint_spec() == old(self).waypoint_spec(),
            final(self).signer_spec() == old(self).signer_spec(),
            vote_for(v, *b, old(self).signer_spec()),
            final(self).data() == after_vote(old(self).data(), *b),
    {
        let sd = self.storage.safety_data();
        let preferred_round = if b.quorum_cert.parent_round > sd.preferred_round {
            b.quorum_cert.parent_round
        } else {
            sd.preferred_round
        };
        self.storage.set_safety_data(
            SafetyData { last_voted_round: b.round, preferred_round, ..sd },
        );
        let signer = self.storage.signer();
        let vote_data = b.vote_data();
        let signature = signer.sign(vote_data.signing_bytes());
        Vote { vote_data, author: signer.author, signature }
    }

    /// Signs a block that this validator proposes. The engine checks only the
    /// epoch and that the block is this validator's: whether this validator is the
    /// round's proposer is the driver's decision. The round state does not change.
    pub fn sign_proposal(&self, block_data: &BlockData) -> (r: Result<Signature, Error>)
        ensures
            proposal_post(*self, *block_data, r),
    {
        let signer = self.storage.signer();
        if self.epoch_state.is_none() {
            return Err(Error::NotInitialized);
        }
        let sd = self.storage.safety_data();
        if block_data.epoch != sd.epoch {
            return Err(Error::IncorrectEpoch(block_data.epoch, sd.epoch));
        }
        if block_data.author != signer.author {
            return Err(Error::NotAuthorized);
        }
        Ok(signer.sign(block_data.signing_bytes()))
    }

    /// Raises the last voted round to `round` if it is higher, storing it.
    fn store_timeout_round(&mut self, round: u64)
        ensures
            old(self).wf() ==> final(self).wf(),
            final(self).epoch_state() == old(self).epoch_state(),
            final(self).waypoint_spec() == old(self).waypoint_spec(),
            final(self).signer_spec() == old(self).signer_spec(),
            final(self).data() == after_timeout(old(self).data(), round),
    {
        let sd = self.storage.safety_data();
        if round > sd.last_voted_round {
            self.storage.set_safety_data(SafetyData { last_voted_round: round, ..sd });
        }
    }

    /// Signs a timeout for a round not below the last voted one; the last voted
    /// round rises to it, and is stored before signing.
    pub fn sign_timeout(&mut self, timeout: &Timeout) -> (r: Result<Signature, Error>)
        ensures
            timeout_post(*old(self), *final(self), *timeout, r),
    {
        if self.epoch_state.is_none() {
            return Err(Error::NotInitialized);
        }
        let sd = self.storage.safety_data();
        if timeout.epoch != sd.epoch {
            return Err(Error::IncorrectEpoch(timeout.epoch, sd.epoch));
        }
        if timeout.round < sd.last_voted_round {
            return Err(Error::InvalidOrdering);
        }
        self.store_timeout_round(timeout.round);
        Ok(self.storage.signer().sign(timeout.signing_bytes()))
    }

    /// Signs a two-chain timeout: the round must follow the highest certified
    /// round or the round of the timeout certificate, and not be below the last
    /// voted round, which rises to it and is stored before signing.
    pub fn sign_timeout_with_qc(
        &mut self,
        timeout: &TwoChainTimeout,
        timeout_cert: Option<&TwoChainTimeoutCertificate>,
    ) -> (r: Result<Signature, Error>)
        ensures
            timeout_with_qc_post(*old(self), *final(self), *timeout, tc_of(timeout_cert), r),
    {
        if self.epoch_state.is_none() {
            return Err(Error::NotInitialized);
        }
        let sd = self.storage.safety_data();
        if timeout.epoch != sd.epoch {
            return Err(Error::IncorrectEpoch(timeout.epoch, sd.epoch));
        }
        let tc_round: u64 = match timeout_cert {
            Some(t) => {
                if t.epoch != sd.epoch {
                    return Err(Error::IncorrectEpoch(t.epoch, sd.epoch));
                }
                t.round
            },
            None => 0,
        };
        let follows_qc = timeout.hqc_round < u64::MAX && timeout.round == timeout.hqc_round + 1;
        let follows_tc = tc_round < u64::MAX && timeout.round == tc_round + 1;
        if !(follows_qc || follows_tc) || timeout.round < sd.last_voted_round {
            return Err(Error::InvalidOrdering);
        }
        self.store_timeout_round(timeout.round);
        Ok(self.storage.signer().sign(timeout.signing_bytes()))
    }

    /// Signs `new_ledger_info` as the commit of the ordered ledger info
    /// `ledger_info`, which a quorum of the current epoch signed. The new commit
    /// round is stored before signing.
    pub fn sign_commit_vote(
        &mut self,
        ledger_info: &LedgerInfoWithSignatures,
        new_ledger_info: &LedgerInfo,
    ) -> (r: Result<Signature, Error>)
        ensures
            commit_post(*old(self), *final(self), *ledger_info, *new_ledger_info, r),
    {
        let es = match &self.epoch_state {
            Some(e) => e,
            None => {
                return Err(Error::NotInitialized);
            },
        };
        let sd = self.storage.safety_data();
        let old_li = &ledger_info.ledger_info;
        if old_li.epoch != sd.epoch {
            return Err(Error::IncorrectEpoch(old_li.epoch, sd.epoch));
        }
        let msg = old_li.signing_bytes();
        if !verify_quorum(&es.verifier, &ledger_info.signatures, &msg) || new_ledger_info.epoch
            != old_li.epoch || new_ledger_info.round != old_li.round || !bytes_equal(
            &new_ledger_info.id,
            &old_li.id,
        ) || new_ledger_info.round <= sd.last_committed_round {
            return Err(Error::InvalidOrdering);
        }
        self.storage.set_safety_data(
            SafetyData { last_committed_round: new_ledger_info.round, ..sd },
        );
        Ok(self.storage.signer().sign(new_ledger_info.signing_bytes()))
    }
}

} // verus!
