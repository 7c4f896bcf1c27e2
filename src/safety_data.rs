use vstd::prelude::*;

use crate::ledger_info::Waypoint;
use crate::validator_set::ValidatorSigner;

verus! {

/// The round state that safety decisions are made against.
#[derive(Clone, Copy, Debug, PartialEq, Eq, Structural)]
pub struct SafetyData {
    pub epoch: u64,
    pub last_voted_round: u64,
    pub preferred_round: u64,
    pub last_committed_round: u64,
}

impl SafetyData {
    pub fn new(epoch: u64, last_voted_round: u64, preferred_round: u64) -> (r: SafetyData)
        ensures
            r == (SafetyData { epoch, last_voted_round, preferred_round, last_committed_round: 0 }),
    {
        SafetyData { epoch, last_voted_round, preferred_round, last_committed_round: 0 }
    }
}

/// The state of a fresh epoch: its number and all rounds at zero.
pub open spec fn fresh_epoch(epoch: u64) -> SafetyData {
    SafetyData { epoch, last_voted_round: 0, preferred_round: 0, last_committed_round: 0 }
}

/// A snapshot of the engine's state.
#[derive(Clone, Debug, PartialEq, Eq)]
pub struct ConsensusState {
    pub epoch: u64,
    pub last_voted_round: u64,
    pub preferred_round: u64,
    pub waypoint: Waypoint,
    pub in_validator_set: bool,
}

impl ConsensusState {
    pub fn epoch(&self) -> (r: u64)
        ensures
            r == self.epoch,
    {
        self.epoch
    }

    pub fn last_voted_round(&self) -> (r: u64)
        ensures
            r == self.last_voted_round,
    {
        self.last_voted_round
    }

    pub fn preferred_round(&self) -> (r: u64)
        ensures
            r == self.preferred_round,
    {
        self.preferred_round
    }

    pub fn waypoint(&self) -> (r: &Waypoint)
        ensures
            *r == self.waypoint,
    {
        &self.waypoint
    }

    pub fn in_validator_set(&self) -> (r: bool)
        ensures
            r == self.in_validator_set,
    {
        self.in_validator_set
    }
}

/// The durable record of one validator: its round state, its trusted waypoint,
/// and its signing capability. Every write replaces the round state whole.
#[derive(Clone, Debug)]
pub struct PersistentSafetyStorage {
    safety_data: SafetyData,
    waypoint: Waypoint,
    signer: ValidatorSigner,
}

impl PersistentSafetyStorage {
    pub closed spec fn data(&self) -> SafetyData {
        self.safety_data
    }

    pub closed spec fn waypoint_spec(&self) -> Waypoint {
        self.waypoint
    }

    pub closed spec fn signer_spec(&self) -> ValidatorSigner {
        self.signer
    }

    /// The preferred round never passes the last voted round.
    pub open spec fn wf(&self) -> bool {
        self.data().preferred_round <= self.data().last_voted_round
    }

    /// The record of a validator at bootstrap: epoch 1, all rounds zero.
    pub fn initialize(signer: ValidatorSigner, waypoint: Waypoint) -> (r: PersistentSafetyStorage)
        ensures
            r.data() == fresh_epoch(1),
            r.waypoint_spec() == waypoint,
            r.signer_spec() == signer,
            r.wf(),
    {
        PersistentSafetyStorage { safety_data: SafetyData::new(1, 0, 0), waypoint, signer }
    }

    /// A record with the given round state.
    pub fn new(signer: ValidatorSigner, waypoint: Waypoint, safety_data: SafetyData) -> (r:
        PersistentSafetyStorage)
        requires
            safety_data.preferred_round <= safety_data.last_voted_round,
        ensures
            r.data() == safety_data,
            r.waypoint_spec() == waypoint,
            r.signer_spec() == signer,
            r.wf(),
    {
        PersistentSafetyStorage { safety_data, waypoint, signer }
    }

    pub fn safety_data(&self) -> (r: SafetyData)
        ensures
            r == self.data(),
    {
        self.safety_data
    }

    pub fn waypoint(&self) -> (r: &Waypoint)
        ensures
            *r == self.waypoint_spec(),
    {
        &self.waypoint
    }

    pub fn signer(&self) -> (r: ValidatorSigner)
        ensures
            r == self.signer_spec(),
    {
        self.signer
    }

    /// Replaces the round state.
    pub(crate) fn set_safety_data(&mut self, safety_data: SafetyData)
        ensures
            final(self).data() == safety_data,
            final(self).waypoint_spec() == old(self).waypoint_spec(),
            final(self).signer_spec() == old(self).signer_spec(),
    {
        self.safety_data = safety_data;
    }

    /// Replaces the trusted waypoint.
    pub(crate) fn set_waypoint(&mut self, waypoint: Waypoint)
        ensures
            final(self).waypoint_spec() == waypoint,
            final(self).data() == old(self).data(),
            final(self).signer_spec() == old(self).signer_spec(),
    {
        self.waypoint = waypoint;
    }
}

} // verus!
