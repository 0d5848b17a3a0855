//! The formulas of the cycle, station by station.
//!
//! Stations are numbered as is usual for a turbojet: 2 behind the inlet, 3
//! behind the compressor, 4 behind the combustor, 5 behind the turbine.  `tt`
//! and `pt` are total temperature and total pressure at a station.

use vstd::prelude::*;
use crate::arithmetic::constant;
use crate::arithmetic::difference;
use crate::arithmetic::power;
use crate::arithmetic::product;
use crate::arithmetic::quotient;
use crate::arithmetic::square_root;
use crate::arithmetic::sum;
use crate::arithmetic::value;
use crate::arithmetic::Term;
use crate::binary64::Binary64;
use crate::constants::CP;
use crate::constants::ETA_B;
use crate::constants::ETA_M;
use crate::constants::GAMMA;
use crate::constants::LHV;
use crate::constants::ONE;
use crate::constants::PA;
use crate::constants::TWO;

verus! {

/// The exponent of an isentropic change from a pressure ratio to a
/// temperature ratio: `(GAMMA - 1) / GAMMA`.
pub open spec fn isentropic_exponent() -> Term {
    quotient(difference(constant(GAMMA), constant(ONE)), constant(GAMMA))
}

/// The exponent of an isentropic change from a temperature ratio to a
/// pressure ratio: `GAMMA / (GAMMA - 1)`.
pub open spec fn expansion_exponent() -> Term {
    quotient(constant(GAMMA), difference(constant(GAMMA), constant(ONE)))
}

/// Compressor exit temperature: the isentropic rise for the pressure ratio
/// `pi_c`, divided by the efficiency `eta_c`, on top of the inlet temperature:
/// `tt2 + (tt2 * pi_c^((GAMMA - 1) / GAMMA) - tt2) / eta_c`.
pub open spec fn compressor_exit_temperature(tt2: Binary64, pi_c: Binary64, eta_c: Binary64) -> Term {
    sum(
        value(tt2),
        quotient(
            difference(product(value(tt2), power(value(pi_c), isentropic_exponent())), value(tt2)),
            value(eta_c),
        ),
    )
}

/// Compressor exit pressure: `pt2 * pi_c`.
pub open spec fn compressor_exit_pressure(pt2: Binary64, pi_c: Binary64) -> Term {
    product(value(pt2), value(pi_c))
}

/// Specific work of the compressor: `CP * (tt3 - tt2)`.
pub open spec fn compressor_work(tt2: Binary64, tt3: Binary64) -> Term {
    product(constant(CP), difference(value(tt3), value(tt2)))
}

/// Combustor exit pressure: `pt3 * pi_b`.
pub open spec fn combustor_exit_pressure(pt3: Binary64, pi_b: Binary64) -> Term {
    product(value(pt3), value(pi_b))
}

/// Fuel-air ratio, from the combustor's energy balance:
/// `CP * (tt4 - tt3) / (ETA_B * LHV - CP * tt4)`.
pub open spec fn fuel_air_ratio(tt3: Binary64, tt4: Binary64) -> Term {
    quotient(
        product(constant(CP), difference(value(tt4), value(tt3))),
        difference(product(constant(ETA_B), constant(LHV)), product(constant(CP), value(tt4))),
    )
}

/// Specific work of the turbine, which drives the compressor through the
/// shaft: `wc / ETA_M`.
pub open spec fn turbine_work(wc: Binary64) -> Term {
    quotient(value(wc), constant(ETA_M))
}

/// Turbine exit temperature: `tt4 - wt / CP`.
pub open spec fn turbine_exit_temperature(tt4: Binary64, wt: Binary64) -> Term {
    difference(value(tt4), quotient(value(wt), constant(CP)))
}

/// Turbine exit temperature of the isentropic expansion that yields the same
/// work at the efficiency `eta_t`: `tt4 - wt / (CP * eta_t)`.
pub open spec fn turbine_exit_temperature_ideal(tt4: Binary64, wt: Binary64, eta_t: Binary64) -> Term {
    difference(value(tt4), quotient(value(wt), product(constant(CP), value(eta_t))))
}

/// Turbine exit pressure: `pt4 * (tt5s / tt4)^(GAMMA / (GAMMA - 1))`.
pub open spec fn turbine_exit_pressure(pt4: Binary64, tt5s: Binary64, tt4: Binary64) -> Term {
    product(value(pt4), power(quotient(value(tt5s), value(tt4)), expansion_exponent()))
}

/// Static temperature at the nozzle exit after an isentropic expansion to
/// ambient pressure: `tt5 * (PA / pt5)^((GAMMA - 1) / GAMMA)`.
pub open spec fn nozzle_exit_temperature_ideal(tt5: Binary64, pt5: Binary64) -> Term {
    product(value(tt5), power(quotient(constant(PA), value(pt5)), isentropic_exponent()))
}

/// Exhaust velocity of the isentropic expansion:
/// `sqrt(2 * CP * (tt5 - te_s))`.
pub open spec fn exhaust_velocity_ideal(tt5: Binary64, te_s: Binary64) -> Term {
    square_root(
        product(product(constant(TWO), constant(CP)), difference(value(tt5), value(te_s))),
    )
}

/// Exhaust velocity, with the nozzle efficiency `eta_n` taken on the kinetic
/// energy: `sqrt(eta_n) * ve_s`.
pub open spec fn exhaust_velocity(eta_n: Binary64, ve_s: Binary64) -> Term {
    product(square_root(value(eta_n)), value(ve_s))
}

/// Specific thrust, the exhaust velocity times the mass flow with the fuel
/// added: `(1 + f) * ve`.
pub open spec fn specific_thrust(f: Binary64, ve: Binary64) -> Term {
    product(sum(constant(ONE), value(f)), value(ve))
}

} // verus!
