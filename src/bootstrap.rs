use vstd::prelude::*;

use crate::encoding::copy_bytes;
use crate::error::Error;
use crate::ledger_info::{matches_waypoint, EpochState, LedgerInfo, Waypoint};

verus! {

/// The epoch of a ledger that starts from nothing.
pub const GENESIS_EPOCH: u64 = 0;

/// The round of the genesis block.
pub const GENESIS_ROUND: u64 = 0;

/// The timestamp of a ledger that starts from nothing.
pub const GENESIS_TIMESTAMP_USECS: u64 = 0;

/// Length of the all-zero id of the genesis block.
pub const GENESIS_ID_LENGTH: usize = 32;

/// What executing the genesis transaction on the ledger showed: the epoch and
/// timestamp stored before and after it, the new state's root hash, and the
/// epoch that the transaction started, if it started one.
pub struct GenesisExecution {
    pub epoch_before: u64,
    pub epoch_after: u64,
    pub timestamp_after: u64,
    pub root_hash: Vec<u8>,
    pub next_epoch_state: Option<EpochState>,
}

/// Whether the genesis at `genesis_version` is acceptable: it must start an
/// epoch, and on a ledger that is not empty it must move the stored epoch one up.
pub open spec fn genesis_ok(genesis_version: u64, ex: GenesisExecution) -> bool {
    &&& ex.next_epoch_state is Some
    &&& (genesis_version != 0 ==> ex.epoch_before < u64::MAX && ex.epoch_after == ex.epoch_before
        + 1)
}

/// The ledger info that commits the genesis transaction at `genesis_version`.
/// On an empty ledger it is in the genesis epoch at the genesis timestamp; on a
/// ledger with history (a recovery genesis) it is in the epoch stored before the
/// transaction, at the timestamp stored after it.
pub fn calculate_genesis(genesis_version: u64, ex: GenesisExecution) -> (r: Result<LedgerInfo, Error>)
    ensures
        !genesis_ok(genesis_version, ex) ==> r == Err::<LedgerInfo, Error>(Error::InternalError),
        genesis_ok(genesis_version, ex) ==> (r matches Ok(li) && {
            &&& li.epoch == if genesis_version == 0 {
                GENESIS_EPOCH
            } else {
                ex.epoch_before
            }
            &&& li.timestamp_usecs == if genesis_version == 0 {
                GENESIS_TIMESTAMP_USECS
            } else {
                ex.timestamp_after
            }
            &&& li.round == GENESIS_ROUND
            &&& li.version == genesis_version
            &&& li.id@ == Seq::new(GENESIS_ID_LENGTH as nat, |i: int| 0u8)
            &&& li.executed_state_id@ == ex.root_hash@
            &&& li.next_epoch_state == ex.next_epoch_state
        }),
{
    if ex.next_epoch_state.is_none() {
        return Err(Error::InternalError);
    }
    let epoch = if genesis_version == 0 {
        GENESIS_EPOCH
    } else {
        ex.epoch_before
    };
    let timestamp_usecs = if genesis_version == 0 {
        GENESIS_TIMESTAMP_USECS
    } else {
        if epoch == u64::MAX || epoch + 1 != ex.epoch_after {
            return Err(Error::InternalError);
        }
        ex.timestamp_after
    };
    let id: Vec<u8> = vec![0u8; GENESIS_ID_LENGTH];
    assert(id@ =~= Seq::new(GENESIS_ID_LENGTH as nat, |i: int| 0u8));
    let executed_state_id = copy_bytes(&ex.root_hash);
    Ok(LedgerInfo {
        epoch,
        round: GENESIS_ROUND,
        id,
        executed_state_id,
        version: genesis_version,
        timestamp_usecs,
        next_epoch_state: ex.next_epoch_state,
    })
}

/// The waypoint of the state that executing the genesis transaction produced,
/// given the ledger info of that state; `None` if genesis changed no epoch.
pub fn generate_waypoint(genesis: &LedgerInfo) -> (r: Option<Waypoint>)
    ensures
        genesis.next_epoch_state is None ==> r is None,
        genesis.next_epoch_state is Some ==> (r matches Some(w) && matches_waypoint(*genesis, w)),
{
    Waypoint::new_epoch_boundary(genesis)
}

/// Whether the genesis transaction is for this ledger: only when the ledger
/// holds exactly as many transactions as the waypoint's version. Otherwise the
/// ledger is already bootstrapped, or state sync is to catch it up.
pub fn genesis_applies(num_transactions: u64, waypoint: &Waypoint) -> (r: bool)
    ensures
        r == (num_transactions == waypoint.version),
{
    num_transactions == waypoint.version
}

/// Decides a bootstrap: `Ok(false)` when the genesis transaction is not for
/// this ledger; `Ok(true)`, to commit, when the executed genesis `genesis` is
/// the boundary that `waypoint` commits to; `WaypointMismatch` otherwise.
pub fn maybe_bootstrap(num_transactions: u64, waypoint: &Waypoint, genesis: &LedgerInfo) -> (r:
    Result<bool, Error>)
    ensures
        num_transactions != waypoint.version ==> r == Ok::<bool, Error>(false),
        num_transactions == waypoint.version ==> r == if genesis.next_epoch_state is Some
            && matches_waypoint(*genesis, *waypoint) {
            Ok::<bool, Error>(true)
        } else {
            Err(Error::WaypointMismatch)
        },
{
    if !genesis_applies(num_transactions, waypoint) {
        return Ok(false);
    }
    if genesis.next_epoch_state.is_none() || !waypoint.matches(genesis) {
        return Err(Error::WaypointMismatch);
    }
    Ok(true)
}

} // verus!
