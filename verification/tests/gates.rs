use mc_turbojet::binary64::Binary64;
use mc_turbojet::error::CycleError;
use mc_turbojet::gates::check_fuel_air_ratio;
use mc_turbojet::gates::check_pressure_ratio;
use mc_turbojet::gates::check_turbine_exit_pressure;
use mc_turbojet::gates::check_turbine_exit_temperature;

fn enc(x: f64) -> Binary64 {
    Binary64::from_bits(x.to_bits())
}

#[test]
fn pressure_ratio_gate_opens_above_one() {
    for x in [1.0, 0.9, 0.0, -0.0, -5.0, f64::NEG_INFINITY, 1.0 - f64::EPSILON / 2.0] {
        assert_eq!(check_pressure_ratio(enc(x)), Err(CycleError::InvalidPressureRatio));
    }
    for x in [1.0 + f64::EPSILON, 1.5, 10.0, 1e300, f64::INFINITY, f64::NAN] {
        assert_eq!(check_pressure_ratio(enc(x)), Ok(()));
    }
}

#[test]
fn fuel_air_ratio_gate_closes_below_zero() {
    for x in [-f64::from_bits(1), -1e-300, -0.02, -1.0, f64::NEG_INFINITY] {
        assert_eq!(check_fuel_air_ratio(enc(x)), Err(CycleError::NegativeFuelAirRatio));
    }
    for x in [0.0, -0.0, f64::from_bits(1), 0.02, 27.0, f64::INFINITY, f64::NAN] {
        assert_eq!(check_fuel_air_ratio(enc(x)), Ok(()));
    }
}

#[test]
fn turbine_exit_temperature_gate_closes_below_zero() {
    for x in [-f64::from_bits(1), -0.5, -5903.9, f64::NEG_INFINITY] {
        assert_eq!(
            check_turbine_exit_temperature(enc(x)),
            Err(CycleError::NegativeTurbineExitTemperature)
        );
    }
    for x in [0.0, -0.0, 1.0, 1081.3, f64::INFINITY, f64::NAN] {
        assert_eq!(check_turbine_exit_temperature(enc(x)), Ok(()));
    }
}

#[test]
fn turbine_exit_pressure_gate_opens_above_ambient() {
    let above = f64::from_bits(101325.0f64.to_bits() + 1);
    let below = f64::from_bits(101325.0f64.to_bits() - 1);
    for x in [101325.0, below, 96258.75, 0.0, -1.0, f64::NEG_INFINITY] {
        assert_eq!(
            check_turbine_exit_pressure(enc(x)),
            Err(CycleError::SubambientTurbineExitPressure)
        );
    }
    for x in [above, 101325.1, 346898.2, f64::INFINITY, f64::NAN] {
        assert_eq!(check_turbine_exit_pressure(enc(x)), Ok(()));
    }
}
