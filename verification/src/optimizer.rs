use vstd::prelude::*;

use crate::account::budget_program_account;
use crate::account::budget_program_id;
use crate::budget::encode_set_limit;
use crate::budget::fixed_padded;
use crate::budget::limit_from_units;
use crate::budget::pad_limit_fixed;
use crate::budget::pad_limit_percent;
use crate::budget::percent_padded;
use crate::budget::set_limit_data;
use crate::error::EstimateError;
use crate::message::ix_indices_in_bounds;
use crate::message::keys_unique;
use crate::message::message_well_formed;
use crate::message::CompiledIx;
use crate::message::Message;

verus! {

/// The instruction is a "set resource limit" instruction requesting `limit`
/// units: its program reference is `index`, it consumes no account
/// references, and its payload encodes `limit`.
pub open spec fn is_limit_ix(ix: CompiledIx, limit: u32, index: int) -> bool {
    &&& ix.program_id_index as int == index
    &&& ix.accounts@ == Seq::<u8>::empty()
    &&& ix.data@ == set_limit_data(limit)
}

/// `after` is `before` with one optimization pass applied at `limit`: the
/// budget-program identifier appended at the tail of the account-reference
/// table, and a limit instruction — whose program reference points at that
/// appended entry — inserted at position 0, every other instruction kept in
/// order one position later.
pub open spec fn optimized_from(before: Message, after: Message, limit: u32) -> bool {
    &&& after.num_required_signatures == before.num_required_signatures
    &&& after.account_keys@ == before.account_keys@.push(budget_program_id())
    &&& after.instructions@.len() == before.instructions@.len() + 1
    &&& is_limit_ix(after.instructions@[0], limit, before.account_keys@.len() as int)
    &&& forall|k: int|
        0 <= k < before.instructions@.len() ==> after.instructions@[k + 1]
            == before.instructions@[k]
}

/// Splices a "set resource limit" instruction into the message, in the order
/// that preserves index integrity: first the budget-program identifier is
/// appended at the tail of the account-reference table, then the instruction
/// is compiled against the post-append table, then it is inserted at
/// position 0 so the limit takes effect for the whole transaction.
///
/// Any signatures the caller held before this mutation are invalid
/// afterwards and must be regenerated; this library never re-signs.
pub fn apply_limit_instruction(message: &mut Message, limit: u32)
    requires
        old(message).account_keys@.len() < 256,
    ensures
        optimized_from(*old(message), *final(message), limit),
{
    message.account_keys.push(budget_program_account());
    let index: u8 = (message.account_keys.len() - 1) as u8;
    let compiled = CompiledIx {
        program_id_index: index,
        accounts: Vec::new(),
        data: encode_set_limit(limit),
    };
    message.instructions.insert(0, compiled);
}

/// Percentage-margin entry point. Narrows the raw estimate to 32 bits, pads
/// it by the percentage margin, and splices the limit instruction in. On
/// success the padded limit is returned; on `Overflow` the message is left
/// unchanged.
pub fn optimize_with_units_percent(message: &mut Message, units: u64) -> (r: Result<
    u32,
    EstimateError,
>)
    requires
        old(message).account_keys@.len() < 256,
    ensures
        units <= u32::MAX && percent_padded(units as u32) <= u32::MAX ==> {
            &&& r == Ok::<u32, EstimateError>(percent_padded(units as u32) as u32)
            &&& optimized_from(*old(message), *final(message), percent_padded(units as u32) as u32)
        },
        units > u32::MAX || percent_padded(units as u32) > u32::MAX ==> {
            &&& r == Err::<u32, EstimateError>(EstimateError::Overflow)
            &&& *final(message) == *old(message)
        },
{
    let estimate = match limit_from_units(units) {
        Ok(e) => e,
        Err(e) => {
            return Err(e);
        },
    };
    let limit = match pad_limit_percent(estimate) {
        Ok(l) => l,
        Err(e) => {
            return Err(e);
        },
    };
    apply_limit_instruction(message, limit);
    Ok(limit)
}

/// Fixed-margin entry point. Narrows the raw estimate to 32 bits, pads it by
/// `FIXED_MARGIN` units, and splices the limit instruction in. On success
/// the padded limit is returned; on `Overflow` the message is left
/// unchanged.
pub fn optimize_with_units_fixed(message: &mut Message, units: u64) -> (r: Result<
    u32,
    EstimateError,
>)
    requires
        old(message).account_keys@.len() < 256,
    ensures
        units <= u32::MAX && fixed_padded(units as u32) <= u32::MAX ==> {
            &&& r == Ok::<u32, EstimateError>(fixed_padded(units as u32) as u32)
            &&& optimized_from(*old(message), *final(message), fixed_padded(units as u32) as u32)
        },
        units > u32::MAX || fixed_padded(units as u32) > u32::MAX ==> {
            &&& r == Err::<u32, EstimateError>(EstimateError::Overflow)
            &&& *final(message) == *old(message)
        },
{
    let estimate = match limit_from_units(units) {
        Ok(e) => e,
        Err(e) => {
            return Err(e);
        },
    };
    let limit = match pad_limit_fixed(estimate) {
        Ok(l) => l,
        Err(e) => {
            return Err(e);
        },
    };
    apply_limit_instruction(message, limit);
    Ok(limit)
}

/// After one optimization pass on a message that did not yet reference the
/// budget program, the account-reference table holds the budget-program
/// identifier exactly once — at its tail — and the instruction sequence's
/// first element is the limit instruction, its program reference pointing at
/// that tail entry.
///
/// A second pass is not idempotent: it appends the identifier again and
/// inserts a second limit instruction in front, leaving the first one stale.
pub proof fn lemma_optimize_structure(before: Message, after: Message, limit: u32)
    requires
        optimized_from(before, after, limit),
        forall|i: int|
            0 <= i < before.account_keys@.len() ==> before.account_keys@[i]
                != budget_program_id(),
    ensures
        after.account_keys@.len() == before.account_keys@.len() + 1,
        after.account_keys@.last() == budget_program_id(),
        forall|i: int|
            0 <= i < after.account_keys@.len() - 1 ==> after.account_keys@[i]
                != budget_program_id(),
        is_limit_ix(after.instructions@[0], limit, after.account_keys@.len() - 1),
{
}

/// One optimization pass keeps the message well formed: every instruction
/// index still points inside the extended account-reference table, the
/// fee payer is still designated, and — when the budget program was not
/// referenced before — the table entries are still unique.
pub proof fn lemma_optimize_preserves_well_formed(before: Message, after: Message, limit: u32)
    requires
        optimized_from(before, after, limit),
        message_well_formed(before),
        forall|i: int|
            0 <= i < before.account_keys@.len() ==> before.account_keys@[i]
                != budget_program_id(),
    ensures
        message_well_formed(after),
{
    let n = after.account_keys@.len() as int;
    assert(keys_unique(after.account_keys@));
    assert forall|k: int| 0 <= k < after.instructions@.len() implies ix_indices_in_bounds(
        after.instructions@[k],
        n,
    ) by {
        if k == 0 {
            assert(after.instructions@[0].accounts@ == Seq::<u8>::empty());
        } else {
            assert(after.instructions@[k] == before.instructions@[k - 1]);
            assert(ix_indices_in_bounds(before.instructions@[k - 1],
                before.account_keys@.len() as int));
        }
    }
}

} // verus!
