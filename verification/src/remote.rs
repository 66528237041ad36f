use vstd::prelude::*;

use crate::budget::fixed_padded;
use crate::error::EstimateError;
use crate::message::Message;
use crate::optimizer::optimize_with_units_fixed;
use crate::optimizer::optimized_from;

verus! {

/// The decision rule on a remote simulation response. A response without
/// the consumed-units field is incomplete (`ComputeUnits`), never read as
/// zero; a reported count of exactly zero signals a simulated execution
/// that did not run (`SimulationFailed`), never a valid no-op result.
pub open spec fn simulation_units_decision(units_consumed: Option<u64>) -> Result<
    u64,
    EstimateError,
> {
    match units_consumed {
        Option::None => Err(EstimateError::ComputeUnits),
        Option::Some(units) => if units == 0 {
            Err(EstimateError::SimulationFailed)
        } else {
            Ok(units)
        },
    }
}

/// Reads the consumed-units field of a remote simulation response, applying
/// `simulation_units_decision`: missing is rejected as `ComputeUnits`, zero
/// as `SimulationFailed`, and any positive count is returned as reported.
pub fn units_from_simulation(units_consumed: Option<u64>) -> (r: Result<u64, EstimateError>)
    ensures
        r == simulation_units_decision(units_consumed),
        units_consumed is None ==> r == Err::<u64, EstimateError>(EstimateError::ComputeUnits),
        units_consumed == Some(0u64) ==> r == Err::<u64, EstimateError>(
            EstimateError::SimulationFailed,
        ),
{
    match units_consumed {
        None => Err(EstimateError::ComputeUnits),
        Some(units) => {
            if units == 0 {
                Err(EstimateError::SimulationFailed)
            } else {
                Ok(units)
            }
        },
    }
}

/// Remote-path optimization from a simulation response: the consumed-units
/// field is validated by `simulation_units_decision`, the count is padded by
/// the fixed margin, and the limit instruction is spliced in. On any error
/// — an incomplete response, a failed simulation, or an overflowing limit —
/// the message is left unchanged.
pub fn optimize_from_simulation(message: &mut Message, units_consumed: Option<u64>) -> (r: Result<
    u32,
    EstimateError,
>)
    requires
        old(message).account_keys@.len() < 256,
    ensures
        simulation_units_decision(units_consumed) matches Err(e) ==> {
            &&& r == Err::<u32, EstimateError>(e)
            &&& *final(message) == *old(message)
        },
        simulation_units_decision(units_consumed) matches Ok(units) ==> {
            &&& units <= u32::MAX && fixed_padded(units as u32) <= u32::MAX ==> {
                &&& r == Ok::<u32, EstimateError>(fixed_padded(units as u32) as u32)
                &&& optimized_from(
                    *old(message),
                    *final(message),
                    fixed_padded(units as u32) as u32,
                )
            }
            &&& units > u32::MAX || fixed_padded(units as u32) > u32::MAX ==> {
                &&& r == Err::<u32, EstimateError>(EstimateError::Overflow)
                &&& *final(message) == *old(message)
            }
        },
{
    let units = match units_from_simulation(units_consumed) {
        Ok(units) => units,
        Err(e) => {
            return Err(e);
        },
    };
    optimize_with_units_fixed(message, units)
}

} // verus!
