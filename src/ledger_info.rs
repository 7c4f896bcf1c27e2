use vstd::prelude::*;

use crate::account::AccountAddress;
use crate::encoding::{bytes_enc, bytes_equal, copy_bytes, push_bytes, push_u64, u64_be};
use crate::validator_set::{
    lookup, quorum_power, signs, validator_set_enc, Signature, ValidatorInfo, ValidatorSet,
};

verus! {

/// First byte of the bytes that validators sign for a ledger info.
pub const LEDGER_INFO_DOMAIN: u8 = 1;

/// First byte of a waypoint's commitment.
pub const WAYPOINT_DOMAIN: u8 = 2;

/// An epoch and the validators that sign for it.
#[derive(Clone, Debug, PartialEq, Eq)]
pub struct EpochState {
    pub epoch: u64,
    pub verifier: ValidatorSet,
}

impl EpochState {
    /// A copy of the same epoch and members.
    pub fn duplicate(&self) -> (r: EpochState)
        ensures
            r.epoch == self.epoch,
            r.verifier@ == self.verifier@,
    {
        EpochState { epoch: self.epoch, verifier: self.verifier.duplicate() }
    }
}

/// A committed point of the ledger; at the end of an epoch it names the next
/// epoch's validators.
#[derive(Clone, Debug, PartialEq, Eq)]
pub struct LedgerInfo {
    pub epoch: u64,
    pub round: u64,
    pub id: Vec<u8>,
    pub executed_state_id: Vec<u8>,
    pub version: u64,
    pub timestamp_usecs: u64,
    pub next_epoch_state: Option<EpochState>,
}

/// One validator's signature on a ledger info.
#[derive(Clone, Debug, PartialEq, Eq)]
pub struct ValidatorSignature {
    pub author: AccountAddress,
    pub signature: Signature,
}

/// A ledger info with the signatures of its epoch's validators, ordered by author.
#[derive(Clone, Debug, PartialEq, Eq)]
pub struct LedgerInfoWithSignatures {
    pub ledger_info: LedgerInfo,
    pub signatures: Vec<ValidatorSignature>,
}

/// A trusted point of the ledger: a version and a commitment to the epoch
/// boundary at that version.
#[derive(Clone, Debug, PartialEq, Eq)]
pub struct Waypoint {
    pub version: u64,
    pub value: Vec<u8>,
}

/// Encoding of an optional next epoch.
pub open spec fn epoch_state_enc(e: Option<EpochState>) -> Seq<u8> {
    match e {
        None => seq![0u8],
        Some(s) => seq![1u8] + u64_be(s.epoch) + validator_set_enc(s.verifier@),
    }
}

/// The bytes that validators sign for a ledger info.
pub open spec fn ledger_info_enc(li: LedgerInfo) -> Seq<u8> {
    seq![LEDGER_INFO_DOMAIN] + u64_be(li.epoch) + u64_be(li.round) + bytes_enc(li.id@) + bytes_enc(
        li.executed_state_id@,
    ) + u64_be(li.version) + u64_be(li.timestamp_usecs) + epoch_state_enc(li.next_epoch_state)
}

/// The commitment that a waypoint at the epoch boundary `li` holds.
pub open spec fn waypoint_enc(li: LedgerInfo) -> Seq<u8> {
    seq![WAYPOINT_DOMAIN] + u64_be(li.epoch) + bytes_enc(li.executed_state_id@) + u64_be(li.version)
        + u64_be(li.timestamp_usecs) + epoch_state_enc(li.next_epoch_state)
}

/// Whether `li` ends its epoch and hands over to the epoch right after it.
pub open spec fn ends_epoch(li: LedgerInfo) -> bool {
    &&& li.next_epoch_state is Some
    &&& li.epoch < u64::MAX
    &&& li.next_epoch_state->Some_0.epoch == li.epoch + 1
}

/// Whether `li` is the epoch boundary that `wp` commits to.
pub open spec fn matches_waypoint(li: LedgerInfo, wp: Waypoint) -> bool {
    li.version == wp.version && waypoint_enc(li) == wp.value@
}

/// Authors strictly increase, so no author is counted twice.
pub open spec fn authors_ordered(sigs: Seq<ValidatorSignature>) -> bool {
    forall|i: int, j: int| 0 <= i < j < sigs.len() ==> sigs[i].author.0 < sigs[j].author.0
}

/// Every signature is by a member of `set`, under that member's key, on `msg`.
pub open spec fn all_signed(
    set: Seq<ValidatorInfo>,
    sigs: Seq<ValidatorSignature>,
    msg: Seq<u8>,
) -> bool {
    forall|i: int|
        0 <= i < sigs.len() ==> {
            &&& #[trigger] lookup(set, sigs[i].author) is Some
            &&& signs(sigs[i].signature, lookup(set, sigs[i].author)->Some_0.consensus_public_key, msg)
        }
}

/// The voting power of the authors of `sigs`.
pub open spec fn signed_power(set: Seq<ValidatorInfo>, sigs: Seq<ValidatorSignature>) -> nat
    decreases sigs.len(),
{
    if sigs.len() == 0 {
        0
    } else {
        signed_power(set, sigs.drop_last()) + match lookup(set, sigs.last().author) {
            Some(v) => v.consensus_voting_power as nat,
            None => 0,
        }
    }
}

/// Whether a quorum of `set` signed `msg`.
pub open spec fn quorum_signed(
    set: Seq<ValidatorInfo>,
    sigs: Seq<ValidatorSignature>,
    msg: Seq<u8>,
) -> bool {
    &&& authors_ordered(sigs)
    &&& all_signed(set, sigs, msg)
    &&& signed_power(set, sigs) >= quorum_power(set)
}

proof fn lemma_signed_power_bound(set: Seq<ValidatorInfo>, sigs: Seq<ValidatorSignature>)
    ensures
        signed_power(set, sigs) <= sigs.len() * 0xffff_ffff_ffff_ffff,
    decreases sigs.len(),
{
    if sigs.len() > 0 {
        lemma_signed_power_bound(set, sigs.drop_last());
        let p = signed_power(set, sigs);
        let q = signed_power(set, sigs.drop_last());
        assert(p <= sigs.len() * 0xffff_ffff_ffff_ffff) by (nonlinear_arith)
            requires
                p <= q + 0xffff_ffff_ffff_ffff,
                q <= (sigs.len() - 1) * 0xffff_ffff_ffff_ffff,
        ;
    }
}

/// Appends the encoding of an optional next epoch.
fn encode_epoch_state_into(e: &Option<EpochState>, out: &mut Vec<u8>)
    ensures
        final(out)@ == old(out)@ + epoch_state_enc(*e),
{
    match e {
        None => {
            out.push(0u8);
            assert(final(out)@ =~= old(out)@ + epoch_state_enc(*e));
        },
        Some(s) => {
            out.push(1u8);
            push_u64(out, s.epoch);
            s.verifier.encode_into(out);
            assert(final(out)@ =~= old(out)@ + epoch_state_enc(*e));
        },
    }
}

impl LedgerInfo {
    /// The bytes that validators sign for this ledger info.
    pub fn signing_bytes(&self) -> (r: Vec<u8>)
        ensures
            r@ == ledger_info_enc(*self),
    {
        let mut out: Vec<u8> = Vec::new();
        out.push(LEDGER_INFO_DOMAIN);
        push_u64(&mut out, self.epoch);
        push_u64(&mut out, self.round);
        push_bytes(&mut out, &self.id);
        push_bytes(&mut out, &self.executed_state_id);
        push_u64(&mut out, self.version);
        push_u64(&mut out, self.timestamp_usecs);
        encode_epoch_state_into(&self.next_epoch_state, &mut out);
        assert(out@ =~= ledger_info_enc(*self));
        out
    }

    /// Whether this ledger info ends its epoch and hands over to the next one.
    pub fn ends_epoch(&self) -> (r: bool)
        ensures
            r == ends_epoch(*self),
    {
        match &self.next_epoch_state {
            None => false,
            Some(s) => self.epoch < u64::MAX && s.epoch == self.epoch + 1,
        }
    }
}

impl Waypoint {
    /// The commitment bytes of the epoch boundary `li`.
    fn commitment(li: &LedgerInfo) -> (r: Vec<u8>)
        ensures
            r@ == waypoint_enc(*li),
    {
        let mut out: Vec<u8> = Vec::new();
        out.push(WAYPOINT_DOMAIN);
        push_u64(&mut out, li.epoch);
        push_bytes(&mut out, &li.executed_state_id);
        push_u64(&mut out, li.version);
        push_u64(&mut out, li.timestamp_usecs);
        encode_epoch_state_into(&li.next_epoch_state, &mut out);
        assert(out@ =~= waypoint_enc(*li));
        out
    }

    /// The waypoint of an epoch boundary; `None` for a ledger info that ends no epoch.
    pub fn new_epoch_boundary(li: &LedgerInfo) -> (r: Option<Waypoint>)
        ensures
            li.next_epoch_state is None ==> r is None,
            li.next_epoch_state is Some ==> (r matches Some(w) && matches_waypoint(*li, w)),
    {
        if li.next_epoch_state.is_none() {
            return None;
        }
        Some(Waypoint { version: li.version, value: Waypoint::commitment(li) })
    }

    /// Whether `li` is the epoch boundary this waypoint commits to.
    pub fn matches(&self, li: &LedgerInfo) -> (r: bool)
        ensures
            r == matches_waypoint(*li, *self),
    {
        if li.version != self.version {
            return false;
        }
        let c = Waypoint::commitment(li);
        bytes_equal(&c, &self.value)
    }

    /// A copy of the same waypoint.
    pub fn duplicate(&self) -> (r: Waypoint)
        ensures
            r.version == self.version,
            r.value@ == self.value@,
    {
        let value = copy_bytes(&self.value);
        Waypoint { version: self.version, value }
    }
}

/// Whether a quorum of `set` signed `msg` with `sigs`.
pub fn verify_quorum(set: &ValidatorSet, sigs: &Vec<ValidatorSignature>, msg: &Vec<u8>) -> (r:
    bool)
    ensures
        r == quorum_signed(set@, sigs@, msg@),
{
    let mut power: u128 = 0;
    let mut i: usize = 0;
    while i < sigs.len()
        invariant
            i <= sigs@.len(),
            forall|a: int, b: int| 0 <= a < b < i ==> sigs@[a].author.0 < sigs@[b].author.0,
            all_signed(set@, sigs@.subrange(0, i as int), msg@),
            power == signed_power(set@, sigs@.subrange(0, i as int)),
        decreases sigs@.len() - i,
    {
        let s = &sigs[i];
        if i > 0 && sigs[i - 1].author.0 >= s.author.0 {
            assert(!authors_ordered(sigs@));
            return false;
        }
        let ghost prefix = sigs@.subrange(0, i + 1);
        assert(prefix.drop_last() =~= sigs@.subrange(0, i as int));
        match set.lookup(s.author) {
            None => {
                assert(!all_signed(set@, sigs@, msg@));
                return false;
            },
            Some(v) => {
                if !s.signature.verify(v.consensus_public_key, msg) {
                    assert(!all_signed(set@, sigs@, msg@));
                    return false;
                }
                proof {
                    lemma_signed_power_bound(set@, prefix.drop_last());
                    assert(i * 0xffff_ffff_ffff_ffff <= 0xffff_ffff_ffff_ffff
                        * 0xffff_ffff_ffff_ffff) by (nonlinear_arith)
                        requires
                            i <= 0xffff_ffff_ffff_ffff,
                    ;
                }
                power = power + v.consensus_voting_power as u128;
            },
        }
        i = i + 1;
        assert forall|k: int| 0 <= k < i implies {
            &&& #[trigger] lookup(set@, sigs@.subrange(0, i as int)[k].author) is Some
            &&& signs(
                sigs@.subrange(0, i as int)[k].signature,
                lookup(set@, sigs@.subrange(0, i as int)[k].author)->Some_0.consensus_public_key,
                msg@,
            )
        } by {
            if k < i - 1 {
                assert(sigs@.subrange(0, i as int)[k] == sigs@.subrange(0, i - 1)[k]);
            }
        }
    }
    assert(sigs@.subrange(0, i as int) =~= sigs@);
    let quorum = set.quorum_voting_power();
    power >= quorum
}

} // verus!
