//! Decision core of the local estimation path: the message is replayed
//! through the ledger runtime against freshly fetched account state, and the
//! outcome is read here.
//!
//! Known limitation: a local replay works from possibly stale account state,
//! ignores the fee payer's balance, and does not account for feature gates a
//! remote node may have active; the measured count is state-relative, not
//! time-relative.

use vstd::prelude::*;

use crate::budget::percent_padded;
use crate::error::EstimateError;
use crate::message::Message;
use crate::optimizer::optimize_with_units_percent;
use crate::optimizer::optimized_from;

verus! {

/// Every referenced account was resolved from account storage.
pub open spec fn all_resolved(resolved: Seq<bool>) -> bool {
    forall|i: int| 0 <= i < resolved.len() ==> resolved[i]
}

/// Fails fast when any referenced account could not be resolved: an
/// unresolved account is a fatal precondition failure, never silently
/// treated as an empty or new account. `resolved` holds, per entry of the
/// account-reference table, whether storage resolved it.
pub fn check_accounts_resolved(resolved: &Vec<bool>) -> (r: Result<(), EstimateError>)
    ensures
        all_resolved(resolved@) ==> r == Ok::<(), EstimateError>(()),
        !all_resolved(resolved@) ==> r == Err::<(), EstimateError>(EstimateError::AccountFetch),
{
    let mut i: usize = 0;
    while i < resolved.len()
        invariant
            0 <= i <= resolved@.len(),
            forall|j: int| 0 <= j < i ==> resolved@[j],
        decreases resolved@.len() - i,
    {
        if !resolved[i] {
            return Err(EstimateError::AccountFetch);
        }
        i += 1;
    }
    Ok(())
}

/// The decision rule on a local replay outcome. A runtime fault during the
/// replay is an estimation failure (`Execution`), never coerced to a zero
/// count; a successful replay yields the captured unit count as measured.
pub open spec fn replay_units_decision(success: bool, used_units: u64) -> Result<
    u64,
    EstimateError,
> {
    if success {
        Ok(used_units)
    } else {
        Err(EstimateError::Execution)
    }
}

/// Reads the outcome of a local replay, applying `replay_units_decision`:
/// `success` says whether the message processor ran the whole message
/// through, `used_units` is the counter it captured.
pub fn units_from_replay(success: bool, used_units: u64) -> (r: Result<u64, EstimateError>)
    ensures
        r == replay_units_decision(success, used_units),
{
    if success {
        Ok(used_units)
    } else {
        Err(EstimateError::Execution)
    }
}

/// Local estimation is deterministic: with the account state fixed, any two
/// results the replay-outcome contract admits for the same outcome are
/// equal, so repeated estimation against unchanged state yields the same
/// unit count.
pub proof fn lemma_replay_decision_deterministic(
    r1: Result<u64, EstimateError>,
    r2: Result<u64, EstimateError>,
    success: bool,
    used_units: u64,
)
    requires
        r1 == replay_units_decision(success, used_units),
        r2 == replay_units_decision(success, used_units),
    ensures
        r1 == r2,
{
}

/// Local-path optimization from a replay outcome: the outcome is validated
/// by `replay_units_decision`, the captured count is padded by the
/// percentage margin, and the limit instruction is spliced in. On any error
/// — a runtime fault or an overflowing limit — the message is left
/// unchanged.
pub fn optimize_from_replay(message: &mut Message, success: bool, used_units: u64) -> (r: Result<
    u32,
    EstimateError,
>)
    requires
        old(message).account_keys@.len() < 256,
    ensures
        !success ==> {
            &&& r == Err::<u32, EstimateError>(EstimateError::Execution)
            &&& *final(message) == *old(message)
        },
        success ==> {
            &&& used_units <= u32::MAX && percent_padded(used_units as u32) <= u32::MAX ==> {
                &&& r == Ok::<u32, EstimateError>(percent_padded(used_units as u32) as u32)
                &&& optimized_from(
                    *old(message),
                    *final(message),
                    percent_padded(used_units as u32) as u32,
                )
            }
            &&& used_units > u32::MAX || percent_padded(used_units as u32) > u32::MAX ==> {
                &&& r == Err::<u32, EstimateError>(EstimateError::Overflow)
                &&& *final(message) == *old(message)
            }
        },
{
    let units = match units_from_replay(success, used_units) {
        Ok(units) => units,
        Err(e) => {
            return Err(e);
        },
    };
    optimize_with_units_percent(message, units)
}

} // verus!
