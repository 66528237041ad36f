use vstd::prelude::*;

verus! {

/// A 32-byte account identifier, held as two 128-bit halves in big-endian
/// order (`hi` covers bytes 0..16, `lo` covers bytes 16..32).
#[derive(Clone, Copy, PartialEq, Eq, Structural, Debug, Hash)]
pub struct AccountId {
    pub hi: u128,
    pub lo: u128,
}

/// First half of the well-known identifier of the resource-budget program,
/// the component that interprets resource-limit declarations.
pub const BUDGET_PROGRAM_HI: u128 = 0x0306466fe5211732ffecadba72c39be7;

/// Second half of the well-known identifier of the resource-budget program.
pub const BUDGET_PROGRAM_LO: u128 = 0xbc8ce5bbc5f7126b2c439b3a40000000;

/// The identifier of the resource-budget program.
pub open spec fn budget_program_id() -> AccountId {
    AccountId { hi: BUDGET_PROGRAM_HI, lo: BUDGET_PROGRAM_LO }
}

/// Returns the identifier of the resource-budget program.
pub fn budget_program_account() -> (r: AccountId)
    ensures
        r == budget_program_id(),
{
    AccountId { hi: BUDGET_PROGRAM_HI, lo: BUDGET_PROGRAM_LO }
}

} // verus!
