use vstd::prelude::*;

use crate::consensus_types::BlockData;
use crate::epoch_change::{skip_stale, verify_outcome};
use crate::error::Error;
use crate::ledger_info::{waypoint_enc, EpochState, LedgerInfoWithSignatures, Waypoint};
use crate::safety_data::SafetyData;
use crate::consensus_types::VoteProposal;
use crate::metrics_safety_rules::{err_of, recoverable, reinit_post, retry_post, RetryLog};
use crate::t_safety_rules::TSafetyRules;
use crate::safety_rules::{after_initialize, after_vote, vote_error, SafetyRules};
use crate::serializer::{as_vote, outcome, SafetyRulesInput, SafetyRulesOutput};

verus! {

/// The round state after the votes `bs`, one after another, starting from `sd`:
/// a refused vote leaves the state as it was.
pub open spec fn after_votes(es: Option<EpochState>, sd: SafetyData, bs: Seq<BlockData>) -> SafetyData
    decreases bs.len(),
{
    if bs.len() == 0 {
        sd
    } else {
        let prev = after_votes(es, sd, bs.drop_last());
        if vote_error(es, prev, bs.last()) is None {
            after_vote(prev, bs.last())
        } else {
            prev
        }
    }
}

/// What the `i`-th of the votes `bs` returns: its error, if refused.
pub open spec fn vote_outcome_at(
    es: Option<EpochState>,
    sd: SafetyData,
    bs: Seq<BlockData>,
    i: int,
) -> Option<Error> {
    vote_error(es, after_votes(es, sd, bs.take(i)), bs[i])
}

proof fn lemma_after_votes_floor(es: Option<EpochState>, sd: SafetyData, bs: Seq<BlockData>, i: int)
    requires
        1 <= i <= bs.len(),
        vote_error(es, sd, bs[0]) is None,
    ensures
        after_votes(es, sd, bs.take(i)).last_voted_round >= bs[0].round,
        after_votes(es, sd, bs.take(i)).epoch == sd.epoch,
    decreases i,
{
    assert(bs.take(i).drop_last() =~= bs.take(i - 1));
    assert(bs.take(i).last() == bs[i - 1]);
    if i == 1 {
        assert(bs.take(0) =~= Seq::<BlockData>::empty());
        assert(after_votes(es, sd, bs.take(0)) == sd);
    } else {
        lemma_after_votes_floor(es, sd, bs, i - 1);
    }
}

proof fn lemma_rounds_below_first(bs: Seq<BlockData>, i: int)
    requires
        0 <= i < bs.len(),
        forall|k: int| 1 <= k < bs.len() ==> #[trigger] bs[k].round <= bs[k - 1].round,
    ensures
        bs[i].round <= bs[0].round,
    decreases i,
{
    if i > 0 {
        lemma_rounds_below_first(bs, i - 1);
    }
}

/// No double voting: in a run of votes of one epoch whose rounds never increase
/// after a first vote that is accepted, every later vote is refused with
/// `InvalidOrdering`.
pub proof fn lemma_no_double_voting(es: Option<EpochState>, sd: SafetyData, bs: Seq<BlockData>)
    requires
        bs.len() >= 1,
        vote_error(es, sd, bs[0]) is None,
        forall|k: int| 0 <= k < bs.len() ==> #[trigger] bs[k].epoch == sd.epoch,
        forall|k: int| 1 <= k < bs.len() ==> #[trigger] bs[k].round <= bs[k - 1].round,
    ensures
        forall|i: int|
            1 <= i < bs.len() ==> #[trigger] vote_outcome_at(es, sd, bs, i) == Some(
                Error::InvalidOrdering,
            ),
{
    assert forall|i: int| 1 <= i < bs.len() implies #[trigger] vote_outcome_at(es, sd, bs, i)
        == Some(Error::InvalidOrdering) by {
        lemma_after_votes_floor(es, sd, bs, i);
        lemma_rounds_below_first(bs, i);
        assert(bs[i].epoch == sd.epoch);
    }
}

/// Monotonic persistence: a vote for round `R` stores a last voted round of `R`.
/// An engine restarted from that record refuses every vote of the same epoch at
/// or below `R`, whatever epoch state a later `initialize` establishes.
pub proof fn lemma_monotonic_persistence(
    es: Option<EpochState>,
    sd: SafetyData,
    b: BlockData,
    later: BlockData,
    reloaded: Option<EpochState>,
    init_epoch: u64,
)
    requires
        vote_error(es, sd, b) is None,
        later.epoch == b.epoch,
        later.round <= b.round,
    ensures
        after_vote(sd, b).last_voted_round == b.round,
        vote_error(None, after_vote(sd, b), later) == Some(Error::NotInitialized),
        vote_error(reloaded, after_initialize(after_vote(sd, b), init_epoch), later) is Some,
{
}

/// Epoch isolation: a block voted for in epoch `E` is refused with
/// `IncorrectEpoch` once `initialize` has moved the engine to epoch `E + 1`.
pub proof fn lemma_epoch_isolation(
    es: Option<EpochState>,
    sd: SafetyData,
    b: BlockData,
    next: EpochState,
)
    requires
        vote_error(es, sd, b) is None,
        sd.epoch < u64::MAX,
        next.epoch == sd.epoch + 1,
    ensures
        vote_error(Some(next), after_initialize(after_vote(sd, b), next.epoch), b) == Some(
            Error::IncorrectEpoch(b.epoch, next.epoch),
        ),
{
}

/// Waypoint pinning: a proof whose first record not older than the trusted
/// waypoint is at the waypoint's version but commits to anything else is
/// refused with `WaypointMismatch`.
pub proof fn lemma_waypoint_pinning(wp: Waypoint, recs: Seq<LedgerInfoWithSignatures>)
    requires
        skip_stale(recs, wp.version, 0) < recs.len(),
        recs[skip_stale(recs, wp.version, 0)].ledger_info.version == wp.version,
        waypoint_enc(recs[skip_stale(recs, wp.version, 0)].ledger_info) != wp.value@,
    ensures
        verify_outcome(wp, recs) == Err::<(), Error>(Error::WaypointMismatch),
{
}

/// Through the retry wrapper, on an initialized engine: a vote of the current
/// epoch at or below the last voted round is refused with `InvalidOrdering`,
/// without a retry, and the round state stays as it was.
pub proof fn lemma_wrapped_vote_at_old_round(
    start: SafetyRules,
    log: RetryLog<SafetyRules>,
    end: SafetyRules,
    p: VoteProposal,
)
    requires
        retry_post(start, log, end, SafetyRulesInput::ConstructAndSignVote(&p)),
        start.epoch_state() is Some,
        p.block.epoch == start.data().epoch,
        p.block.round <= start.data().last_voted_round,
    ensures
        as_vote(log.output) == Err::<crate::consensus_types::Vote, Error>(Error::InvalidOrdering),
        end.data() == start.data(),
{
    assert(vote_error(start.epoch_state(), start.data(), p.block) == Some(Error::InvalidOrdering));
    assert(log.first == Err::<crate::serializer::SafetyRulesOutput, Error>(Error::InvalidOrdering));
}

/// Through the retry wrapper, on any engine (also one just restarted, with no
/// epoch established): a vote of the stored epoch at or below the stored last
/// voted round, or a vote of an older epoch, is refused, whatever proof the
/// re-initialization fetched; the stored epoch never goes down.
pub proof fn lemma_wrapped_vote_never_repeats(
    start: SafetyRules,
    log: RetryLog<SafetyRules>,
    end: SafetyRules,
    p: VoteProposal,
)
    requires
        retry_post(start, log, end, SafetyRulesInput::ConstructAndSignVote(&p)),
        start.wf(),
        p.block.epoch < start.data().epoch || (p.block.epoch == start.data().epoch
            && p.block.round <= start.data().last_voted_round),
    ensures
        log.output is Err,
        end.data() == start.data() || end.data().epoch > start.data().epoch,
{
    assert(vote_error(start.epoch_state(), start.data(), p.block) is Some);
    assert(log.first is Err);
    if log.reinit.result is Ok && (log.first matches Err(e) && e.is_recoverable()) {
        let mid = log.reinit.after_init;
        assert(log.reinit.after_state == log.after_first);
        assert(log.after_first.data() == start.data());
        assert(mid.data() == start.data() || mid.data().epoch > start.data().epoch);
        assert(vote_error(mid.epoch_state(), mid.data(), p.block) is Some);
    }
}

/// Retry exactly once: an answer that is not a recoverable failure is returned
/// as it came, with no re-initialization; after a recoverable failure the
/// engine is re-initialized once, and either that failure is returned or the
/// answer of exactly one further run on the re-initialized engine.
pub proof fn lemma_retry_exactly_once<T: TSafetyRules>(
    start: T,
    log: RetryLog<T>,
    end: T,
    input: SafetyRulesInput,
)
    requires
        retry_post(start, log, end, input),
    ensures
        outcome(start, log.after_first, input, log.first),
        !recoverable(err_of(log.first)) ==> log.output == log.first && end == log.after_first,
        recoverable(err_of(log.first)) && log.reinit.result is Ok ==> reinit_post(
            log.after_first,
            log.reinit,
            log.reinit.after_init,
        ) && outcome(log.reinit.after_init, end, input, log.output),
        recoverable(err_of(log.first)) && log.reinit.result is Err ==> log.output == Err::<
            SafetyRulesOutput,
            Error,
        >(log.reinit.result->Err_0),
{
}

} // verus!
