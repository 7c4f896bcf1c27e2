use vstd::prelude::*;

use crate::error::Error;
use crate::ledger_info::{
    ends_epoch, ledger_info_enc, matches_waypoint, quorum_signed, verify_quorum, EpochState,
    LedgerInfoWithSignatures, Waypoint,
};

verus! {

/// A chain of epoch-ending ledger infos, each signed by the validators that the
/// one before it named.
#[derive(Clone, Debug, PartialEq, Eq)]
pub struct EpochChangeProof {
    pub ledger_info_with_sigs: Vec<LedgerInfoWithSignatures>,
}

/// Whether `rec` belongs to `state`'s epoch, is signed by a quorum of its
/// validators, and ends that epoch.
#[verifier::opaque]
pub open spec fn record_ok(state: EpochState, rec: LedgerInfoWithSignatures) -> bool {
    &&& rec.ledger_info.epoch == state.epoch
    &&& quorum_signed(state.verifier@, rec.signatures@, ledger_info_enc(rec.ledger_info))
    &&& ends_epoch(rec.ledger_info)
}

/// The index of the first record at or after `i` whose version is not below `v`
/// (the length if there is none): the records before it are older than the
/// waypoint and are passed over.
pub open spec fn skip_stale(recs: Seq<LedgerInfoWithSignatures>, v: u64, i: int) -> int
    decreases recs.len() - i,
{
    if i < 0 || i >= recs.len() {
        recs.len() as int
    } else if recs[i].ledger_info.version < v {
        skip_stale(recs, v, i + 1)
    } else {
        i
    }
}

/// Every record after index `s` is vouched for by the epoch the record before it names.
pub open spec fn chain_from(recs: Seq<LedgerInfoWithSignatures>, s: int) -> bool {
    forall|k: int|
        s < k < recs.len() ==> record_ok(
            recs[k - 1].ledger_info.next_epoch_state->Some_0,
            #[trigger] recs[k],
        )
}

/// The outcome of checking `recs` against the trusted waypoint `wp`.
pub open spec fn verify_outcome(wp: Waypoint, recs: Seq<LedgerInfoWithSignatures>) -> Result<
    (),
    Error,
> {
    let s = skip_stale(recs, wp.version, 0);
    if s >= recs.len() {
        Err(Error::InvalidEpochChangeProof)
    } else if !matches_waypoint(recs[s].ledger_info, wp) {
        Err(Error::WaypointMismatch)
    } else if !ends_epoch(recs[s].ledger_info) || !chain_from(recs, s) {
        Err(Error::InvalidEpochChangeProof)
    } else {
        Ok(())
    }
}

proof fn lemma_skip_stale_range(recs: Seq<LedgerInfoWithSignatures>, v: u64, i: int)
    requires
        0 <= i,
    ensures
        i <= skip_stale(recs, v, i) <= recs.len() || (i > recs.len() && skip_stale(recs, v, i)
            == recs.len()),
        skip_stale(recs, v, i) < recs.len() ==> recs[skip_stale(recs, v, i)].ledger_info.version
            >= v,
    decreases recs.len() - i,
{
    if i < recs.len() && recs[i].ledger_info.version < v {
        lemma_skip_stale_range(recs, v, i + 1);
    }
}

/// Whether `rec` is vouched for by `state`.
pub fn verify_record(state: &EpochState, rec: &LedgerInfoWithSignatures) -> (r: bool)
    ensures
        r == record_ok(*state, *rec),
        r ==> ends_epoch(rec.ledger_info),
{
    reveal(record_ok);
    if rec.ledger_info.epoch != state.epoch {
        return false;
    }
    if !rec.ledger_info.ends_epoch() {
        return false;
    }
    let msg = rec.ledger_info.signing_bytes();
    verify_quorum(&state.verifier, &rec.signatures, &msg)
}

impl EpochChangeProof {
    pub fn new(ledger_info_with_sigs: Vec<LedgerInfoWithSignatures>) -> (r: EpochChangeProof)
        ensures
            r.ledger_info_with_sigs@ == ledger_info_with_sigs@,
    {
        EpochChangeProof { ledger_info_with_sigs }
    }

    /// Checks the proof against the trusted waypoint `wp`. Records older than the
    /// waypoint are passed over; the first one that is not must be the boundary
    /// the waypoint commits to; from there on each record must be signed by a
    /// quorum of the validators that the one before it named, and each must end
    /// its epoch and name the next one.
    pub fn verify(&self, wp: &Waypoint) -> (r: Result<(), Error>)
        ensures
            r == verify_outcome(*wp, self.ledger_info_with_sigs@),
            r is Ok ==> ends_epoch(self.ledger_info_with_sigs@.last().ledger_info),
    {
        let recs = &self.ledger_info_with_sigs;
        let mut s: usize = 0;
        proof {
            lemma_skip_stale_range(recs@, wp.version, 0);
        }
        while s < recs.len() && recs[s].ledger_info.version < wp.version
            invariant
                s <= recs@.len(),
                recs@ == self.ledger_info_with_sigs@,
                skip_stale(recs@, wp.version, 0) == skip_stale(recs@, wp.version, s as int),
            decreases recs@.len() - s,
        {
            s = s + 1;
        }
        if s >= recs.len() {
            return Err(Error::InvalidEpochChangeProof);
        }
        if !wp.matches(&recs[s].ledger_info) {
            return Err(Error::WaypointMismatch);
        }
        if !recs[s].ledger_info.ends_epoch() {
            return Err(Error::InvalidEpochChangeProof);
        }
        let mut k: usize = s + 1;
        while k < recs.len()
            invariant
                s < k <= recs@.len(),
                recs@ == self.ledger_info_with_sigs@,
                s == skip_stale(recs@, wp.version, 0),
                matches_waypoint(recs@[s as int].ledger_info, *wp),
                ends_epoch(recs@[s as int].ledger_info),
                ends_epoch(recs@[k - 1].ledger_info),
                forall|j: int|
                    s < j < k ==> record_ok(
                        recs@[j - 1].ledger_info.next_epoch_state->Some_0,
                        #[trigger] recs@[j],
                    ),
            decreases recs@.len() - k,
        {
            let prev = &recs[k - 1].ledger_info;
            match &prev.next_epoch_state {
                Some(state) => {
                    if !verify_record(state, &recs[k]) {
                        assert(!record_ok(
                            recs@[k - 1].ledger_info.next_epoch_state->Some_0,
                            recs@[k as int],
                        ));
                        assert(!chain_from(recs@, s as int));
                        return Err(Error::InvalidEpochChangeProof);
                    }
                },
                None => {
                    return Err(Error::InvalidEpochChangeProof);
                },
            }
            k = k + 1;
        }
        Ok(())
    }
}

/// The epoch that the last record of a checked proof hands over to.
pub open spec fn final_epoch_state(recs: Seq<LedgerInfoWithSignatures>) -> EpochState {
    recs.last().ledger_info.next_epoch_state->Some_0
}

/// Checks `proof` against the trusted waypoint `current`; on success returns
/// the waypoint of the proof's last boundary and the epoch that boundary hands
/// over to.
pub fn verify_epoch_change(current: &Waypoint, proof: &EpochChangeProof) -> (r: Result<
    (Waypoint, EpochState),
    Error,
>)
    ensures
        verify_outcome(*current, proof.ledger_info_with_sigs@) matches Err(e) ==> r == Err::<
            (Waypoint, EpochState),
            Error,
        >(e),
        verify_outcome(*current, proof.ledger_info_with_sigs@) is Ok ==> (r matches Ok(
            (w, e),
        ) && matches_waypoint(proof.ledger_info_with_sigs@.last().ledger_info, w) && e.epoch
            == final_epoch_state(proof.ledger_info_with_sigs@).epoch && e.verifier@
            == final_epoch_state(proof.ledger_info_with_sigs@).verifier@ && ends_epoch(
            proof.ledger_info_with_sigs@.last().ledger_info,
        )),
{
    proof.verify(current)?;
    let recs = &proof.ledger_info_with_sigs;
    let last = &recs[recs.len() - 1].ledger_info;
    let waypoint = match Waypoint::new_epoch_boundary(last) {
        Some(w) => w,
        None => {
            return Err(Error::InternalError);
        },
    };
    match &last.next_epoch_state {
        Some(next) => Ok((waypoint, next.duplicate())),
        None => Err(Error::InternalError),
    }
}

} // verus!
