//! The ways in which a cycle evaluation fails.

use vstd::prelude::*;

verus! {

/// Why a cycle has no valid performance.
#[derive(Clone, Copy, Debug, PartialEq, Eq, Structural)]
pub enum CycleError {
    /// The compressor pressure ratio is not above one: the compressor cannot
    /// do positive work.
    InvalidPressureRatio,
    /// The fuel-air ratio is negative: the turbine inlet temperature asked for
    /// cannot be reached by adding heat.
    NegativeFuelAirRatio,
    /// The turbine exit temperature is negative: the turbine would have to
    /// extract more energy than the flow holds.
    NegativeTurbineExitTemperature,
    /// The turbine exit pressure is not above ambient: the nozzle cannot
    /// expand the flow.
    SubambientTurbineExitPressure,
}

impl CycleError {
    /// The text of the description that `message` returns.
    pub open spec fn description(self) -> Seq<char> {
        match self {
            CycleError::InvalidPressureRatio => "Compressor pressure ratio must be greater than 1."@,
            CycleError::NegativeFuelAirRatio => "Fuel-air ratio is negative. Check input parameters."@,
            CycleError::NegativeTurbineExitTemperature => "Turbine exit temperature is negative. Check input parameters."@,
            CycleError::SubambientTurbineExitPressure => "Turbine exit pressure is below ambient. Check input parameters."@,
        }
    }

    /// A description of the failure for a human reader.
    pub fn message(&self) -> (text: String)
        ensures
            text@ == self.description(),
    {
        match self {
            CycleError::InvalidPressureRatio => "Compressor pressure ratio must be greater than 1.".to_string(),
            CycleError::NegativeFuelAirRatio => "Fuel-air ratio is negative. Check input parameters.".to_string(),
            CycleError::NegativeTurbineExitTemperature => "Turbine exit temperature is negative. Check input parameters.".to_string(),
            CycleError::SubambientTurbineExitPressure => "Turbine exit pressure is below ambient. Check input parameters.".to_string(),
        }
    }
}

} // verus!
