use vstd::prelude::*;

use crate::account::AccountId;
use crate::error::EstimateError;

verus! {

/// One compiled instruction of a message: a program reference and a sequence
/// of account references, each an index into the message's account-reference
/// table, plus the opaque instruction payload.
#[derive(Clone, Debug, PartialEq, Eq)]
pub struct CompiledIx {
    pub program_id_index: u8,
    pub accounts: Vec<u8>,
    pub data: Vec<u8>,
}

/// A message: an ordered account-reference table and an ordered instruction
/// sequence. The leading `num_required_signatures` table entries designate
/// the required signers, the first of them the fee payer.
///
/// Invariant kept by every mutation of this library: each instruction index
/// stays below the length of the account-reference table.
#[derive(Clone, Debug, PartialEq, Eq)]
pub struct Message {
    pub num_required_signatures: u8,
    pub account_keys: Vec<AccountId>,
    pub instructions: Vec<CompiledIx>,
}

/// Every account reference of the instruction, the program reference
/// included, points inside a table of `n_keys` entries.
pub open spec fn ix_indices_in_bounds(ix: CompiledIx, n_keys: int) -> bool {
    &&& (ix.program_id_index as int) < n_keys
    &&& forall|i: int| 0 <= i < ix.accounts@.len() ==> (ix.accounts@[i] as int) < n_keys
}

/// No account identifier occurs twice in the table.
pub open spec fn keys_unique(keys: Seq<AccountId>) -> bool {
    forall|i: int, j: int| 0 <= i < j < keys.len() ==> keys[i] != keys[j]
}

/// At least one required signer, and no more required signers than table
/// entries; the first entry is then the fee payer.
pub open spec fn fee_payer_present(m: Message) -> bool {
    1 <= m.num_required_signatures as int <= m.account_keys@.len()
}

/// The message is in the form the runtime accepts for execution: index
/// bounds, uniqueness of account references, fee-payer presence.
pub open spec fn message_well_formed(m: Message) -> bool {
    &&& fee_payer_present(m)
    &&& keys_unique(m.account_keys@)
    &&& forall|k: int|
        0 <= k < m.instructions@.len() ==> ix_indices_in_bounds(
            m.instructions@[k],
            m.account_keys@.len() as int,
        )
}

/// Checks one instruction's references against a table of `n_keys` entries.
fn check_ix_indices(ix: &CompiledIx, n_keys: usize) -> (r: bool)
    ensures
        r == ix_indices_in_bounds(*ix, n_keys as int),
{
    if ix.program_id_index as usize >= n_keys {
        return false;
    }
    let mut i: usize = 0;
    while i < ix.accounts.len()
        invariant
            0 <= i <= ix.accounts@.len(),
            (ix.program_id_index as int) < n_keys as int,
            forall|j: int| 0 <= j < i ==> (ix.accounts@[j] as int) < n_keys as int,
        decreases ix.accounts@.len() - i,
    {
        if ix.accounts[i] as usize >= n_keys {
            return false;
        }
        i += 1;
    }
    true
}

/// Checks that no account identifier occurs twice in the table.
fn check_keys_unique(keys: &Vec<AccountId>) -> (r: bool)
    ensures
        r == keys_unique(keys@),
{
    let n = keys.len();
    let mut i: usize = 0;
    while i < n
        invariant
            0 <= i <= n,
            n == keys@.len(),
            forall|p: int, q: int| 0 <= p < q < keys@.len() && p < i ==> keys@[p] != keys@[q],
        decreases n - i,
    {
        let mut j: usize = i + 1;
        while j < n
            invariant
                0 <= i < j <= n,
                n == keys@.len(),
                forall|p: int, q: int| 0 <= p < q < keys@.len() && p < i ==> keys@[p] != keys@[q],
                forall|q: int| i < q < j ==> keys@[i as int] != keys@[q],
            decreases n - j,
        {
            if keys[i] == keys[j] {
                return false;
            }
            j += 1;
        }
        i += 1;
    }
    true
}

/// Sanitization: validates the message into the form the runtime accepts.
///
/// Returns `Ok` exactly when the message is well formed; a malformed message
/// is rejected with `Sanitization` before any estimation work begins.
pub fn sanitize(m: &Message) -> (r: Result<(), EstimateError>)
    ensures
        message_well_formed(*m) ==> r == Ok::<(), EstimateError>(()),
        !message_well_formed(*m) ==> r == Err::<(), EstimateError>(EstimateError::Sanitization),
{
    if m.num_required_signatures == 0 || m.num_required_signatures as usize > m.account_keys.len()
    {
        return Err(EstimateError::Sanitization);
    }
    if !check_keys_unique(&m.account_keys) {
        return Err(EstimateError::Sanitization);
    }
    let n_keys = m.account_keys.len();
    let mut k: usize = 0;
    while k < m.instructions.len()
        invariant
            0 <= k <= m.instructions@.len(),
            n_keys == m.account_keys@.len(),
            fee_payer_present(*m),
            keys_unique(m.account_keys@),
            forall|t: int| 0 <= t < k ==> ix_indices_in_bounds(m.instructions@[t], n_keys as int),
        decreases m.instructions@.len() - k,
    {
        if !check_ix_indices(&m.instructions[k], n_keys) {
            return Err(EstimateError::Sanitization);
        }
        k += 1;
    }
    Ok(())
}

} // verus!
