//! The four validity gates of the cycle.
//!
//! Each gate looks at one number and either lets the evaluation go on or ends
//! it with an error of its own.  No gate refuses a NaN.

use vstd::prelude::*;
use crate::binary64::at_most;
use crate::binary64::integer;
use crate::binary64::less;
use crate::binary64::Binary64;
use crate::constants::lemma_constants;
use crate::constants::ONE;
use crate::constants::PA;
use crate::constants::ZERO;
use crate::error::CycleError;

verus! {

/// The compressor pressure ratio `pi_c` is at most one.
pub open spec fn pressure_ratio_invalid(pi_c: Binary64) -> bool {
    at_most(pi_c@, integer(1))
}

/// The fuel-air ratio `f` is below zero.
pub open spec fn fuel_air_ratio_negative(f: Binary64) -> bool {
    less(f@, integer(0))
}

/// The turbine exit temperature `tt5` is below zero.
pub open spec fn turbine_exit_temperature_negative(tt5: Binary64) -> bool {
    less(tt5@, integer(0))
}

/// The turbine exit pressure `pt5` is at most the ambient pressure of
/// 101 325 Pa.
pub open spec fn turbine_exit_pressure_subambient(pt5: Binary64) -> bool {
    at_most(pt5@, integer(101_325))
}

/// Refuses a compressor pressure ratio that is not above one.
pub fn check_pressure_ratio(pi_c: Binary64) -> (result: Result<(), CycleError>)
    ensures
        pressure_ratio_invalid(pi_c) ==> result == Err::<(), CycleError>(
            CycleError::InvalidPressureRatio,
        ),
        !pressure_ratio_invalid(pi_c) ==> result == Ok::<(), CycleError>(()),
{
    proof {
        lemma_constants();
    }
    if pi_c.le(Binary64::from_bits(ONE)) {
        Err(CycleError::InvalidPressureRatio)
    } else {
        Ok(())
    }
}

/// Refuses a negative fuel-air ratio.
pub fn check_fuel_air_ratio(f: Binary64) -> (result: Result<(), CycleError>)
    ensures
        fuel_air_ratio_negative(f) ==> result == Err::<(), CycleError>(
            CycleError::NegativeFuelAirRatio,
        ),
        !fuel_air_ratio_negative(f) ==> result == Ok::<(), CycleError>(()),
{
    proof {
        lemma_constants();
    }
    if f.lt(Binary64::from_bits(ZERO)) {
        Err(CycleError::NegativeFuelAirRatio)
    } else {
        Ok(())
    }
}

/// Refuses a negative turbine exit temperature.
pub fn check_turbine_exit_temperature(tt5: Binary64) -> (result: Result<(), CycleError>)
    ensures
        turbine_exit_temperature_negative(tt5) ==> result == Err::<(), CycleError>(
            CycleError::NegativeTurbineExitTemperature,
        ),
        !turbine_exit_temperature_negative(tt5) ==> result == Ok::<(), CycleError>(()),
{
    proof {
        lemma_constants();
    }
    if tt5.lt(Binary64::from_bits(ZERO)) {
        Err(CycleError::NegativeTurbineExitTemperature)
    } else {
        Ok(())
    }
}

/// Refuses a turbine exit pressure that is not above ambient.
pub fn check_turbine_exit_pressure(pt5: Binary64) -> (result: Result<(), CycleError>)
    ensures
        turbine_exit_pressure_subambient(pt5) ==> result == Err::<(), CycleError>(
            CycleError::SubambientTurbineExitPressure,
        ),
        !turbine_exit_pressure_subambient(pt5) ==> result == Ok::<(), CycleError>(()),
{
    proof {
        lemma_constants();
    }
    if pt5.le(Binary64::from_bits(PA)) {
        Err(CycleError::SubambientTurbineExitPressure)
    } else {
        Ok(())
    }
}

} // verus!
