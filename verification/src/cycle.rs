//! One run through the cycle: inlet, compressor, combustor, turbine, nozzle.
//!
//! `evaluate_performance` runs the five stages in order, with a validity gate
//! before the first stage and behind three later points.  The first gate that
//! refuses ends the evaluation with its error.

use vstd::prelude::*;
use crate::arithmetic::admits;
use crate::arithmetic::answers;
use crate::arithmetic::evaluates;
use crate::arithmetic::lemma_value_unique;
use crate::arithmetic::single_valued;
use crate::arithmetic::total;
use crate::arithmetic::Operation;
use crate::binary64::Binary64;
use crate::constants::number;
use crate::constants::CP;
use crate::constants::ETA_B;
use crate::constants::ETA_M;
use crate::constants::GAMMA;
use crate::constants::LHV;
use crate::constants::ONE;
use crate::constants::PA;
use crate::constants::TA;
use crate::constants::TWO;
use crate::error::CycleError;
use crate::formulas::combustor_exit_pressure;
use crate::formulas::compressor_exit_pressure;
use crate::formulas::compressor_exit_temperature;
use crate::formulas::compressor_work;
use crate::formulas::exhaust_velocity;
use crate::formulas::exhaust_velocity_ideal;
use crate::formulas::fuel_air_ratio;
use crate::formulas::nozzle_exit_temperature_ideal;
use crate::formulas::specific_thrust;
use crate::formulas::turbine_exit_pressure;
use crate::formulas::turbine_exit_temperature;
use crate::formulas::turbine_exit_temperature_ideal;
use crate::formulas::turbine_work;
use crate::gates::check_fuel_air_ratio;
use crate::gates::check_pressure_ratio;
use crate::gates::check_turbine_exit_pressure;
use crate::gates::check_turbine_exit_temperature;
use crate::gates::fuel_air_ratio_negative;
use crate::gates::pressure_ratio_invalid;
use crate::gates::turbine_exit_pressure_subambient;
use crate::gates::turbine_exit_temperature_negative;

verus! {

/// The quantities that one run derives from the inputs, each named as in the
/// formulas.
pub struct Stations {
    /// Compressor exit temperature.
    pub tt3: Binary64,
    /// Compressor exit pressure.
    pub pt3: Binary64,
    /// Specific work of the compressor.
    pub wc: Binary64,
    /// Combustor exit pressure.
    pub pt4: Binary64,
    /// Fuel-air ratio.
    pub f: Binary64,
    /// Specific work of the turbine.
    pub wt: Binary64,
    /// Turbine exit temperature.
    pub tt5: Binary64,
    /// Turbine exit temperature of the isentropic expansion.
    pub tt5s: Binary64,
    /// Turbine exit pressure.
    pub pt5: Binary64,
    /// Static temperature at the nozzle exit of the isentropic expansion.
    pub te_s: Binary64,
    /// Exhaust velocity of the isentropic expansion.
    pub ve_s: Binary64,
    /// Exhaust velocity.
    pub ve: Binary64,
    /// Specific thrust.
    pub thrust: Binary64,
}

impl Stations {
    /// Whether these quantities are what a run behind the first gate derives
    /// under `arithmetic` from the inputs: each one a value of its formula, as
    /// far as the gates let the run go.  Behind a gate that refuses, nothing
    /// is derived and nothing is said.
    pub open spec fn derived<F: Fn(Operation) -> Binary64>(
        self,
        arithmetic: F,
        pi_c: Binary64,
        tt4: Binary64,
        eta_c: Binary64,
        eta_t: Binary64,
        eta_n: Binary64,
        pi_b: Binary64,
    ) -> bool {
        &&& evaluates(arithmetic, compressor_exit_temperature(number(TA), pi_c, eta_c), self.tt3)
        &&& evaluates(arithmetic, compressor_exit_pressure(number(PA), pi_c), self.pt3)
        &&& evaluates(arithmetic, compressor_work(number(TA), self.tt3), self.wc)
        &&& evaluates(arithmetic, combustor_exit_pressure(self.pt3, pi_b), self.pt4)
        &&& evaluates(arithmetic, fuel_air_ratio(self.tt3, tt4), self.f)
        &&& !fuel_air_ratio_negative(self.f) ==> {
            &&& evaluates(arithmetic, turbine_work(self.wc), self.wt)
            &&& evaluates(arithmetic, turbine_exit_temperature(tt4, self.wt), self.tt5)
            &&& !turbine_exit_temperature_negative(self.tt5) ==> {
                &&& evaluates(
                    arithmetic,
                    turbine_exit_temperature_ideal(tt4, self.wt, eta_t),
                    self.tt5s,
                )
                &&& evaluates(
                    arithmetic,
                    turbine_exit_pressure(self.pt4, self.tt5s, tt4),
                    self.pt5,
                )
                &&& !turbine_exit_pressure_subambient(self.pt5) ==> {
                    &&& evaluates(
                        arithmetic,
                        nozzle_exit_temperature_ideal(self.tt5, self.pt5),
                        self.te_s,
                    )
                    &&& evaluates(
                        arithmetic,
                        exhaust_velocity_ideal(self.tt5, self.te_s),
                        self.ve_s,
                    )
                    &&& evaluates(arithmetic, exhaust_velocity(eta_n, self.ve_s), self.ve)
                    &&& evaluates(arithmetic, specific_thrust(self.f, self.ve), self.thrust)
                }
            }
        }
    }

    /// How a run behind the first gate ends: with the error of the first gate
    /// that refuses, else with exhaust velocity and specific thrust.
    pub open spec fn outcome(self) -> Result<(Binary64, Binary64), CycleError> {
        if fuel_air_ratio_negative(self.f) {
            Err(CycleError::NegativeFuelAirRatio)
        } else if turbine_exit_temperature_negative(self.tt5) {
            Err(CycleError::NegativeTurbineExitTemperature)
        } else if turbine_exit_pressure_subambient(self.pt5) {
            Err(CycleError::SubambientTurbineExitPressure)
        } else {
            Ok((self.ve, self.thrust))
        }
    }
}

/// Whether `result` is a result of evaluating the cycle under `arithmetic`:
/// the first gate's error where the pressure ratio is not above one, else the
/// outcome of some run that `arithmetic` allows.
pub open spec fn evaluated<F: Fn(Operation) -> Binary64>(
    arithmetic: F,
    pi_c: Binary64,
    tt4: Binary64,
    eta_c: Binary64,
    eta_t: Binary64,
    eta_n: Binary64,
    pi_b: Binary64,
    result: Result<(Binary64, Binary64), CycleError>,
) -> bool {
    if pressure_ratio_invalid(pi_c) {
        result == Err::<(Binary64, Binary64), CycleError>(CycleError::InvalidPressureRatio)
    } else {
        exists|stations: Stations| #[trigger]
            stations.derived(arithmetic, pi_c, tt4, eta_c, eta_t, eta_n, pi_b) && result
                == stations.outcome()
    }
}

/// `a + b`, asked of `arithmetic`.
fn plus<F: Fn(Operation) -> Binary64>(a: Binary64, b: Binary64, arithmetic: &F) -> (out: Binary64)
    requires
        total(*arithmetic),
    ensures
        answers(*arithmetic)(Operation::Sum(a, b), out),
{
    arithmetic(Operation::Sum(a, b))
}

/// `a - b`, asked of `arithmetic`.
fn minus<F: Fn(Operation) -> Binary64>(a: Binary64, b: Binary64, arithmetic: &F) -> (out: Binary64)
    requires
        total(*arithmetic),
    ensures
        answers(*arithmetic)(Operation::Difference(a, b), out),
{
    arithmetic(Operation::Difference(a, b))
}

/// `a * b`, asked of `arithmetic`.
fn times<F: Fn(Operation) -> Binary64>(a: Binary64, b: Binary64, arithmetic: &F) -> (out: Binary64)
    requires
        total(*arithmetic),
    ensures
        answers(*arithmetic)(Operation::Product(a, b), out),
{
    arithmetic(Operation::Product(a, b))
}

/// `a / b`, asked of `arithmetic`.
fn over<F: Fn(Operation) -> Binary64>(a: Binary64, b: Binary64, arithmetic: &F) -> (out: Binary64)
    requires
        total(*arithmetic),
    ensures
        answers(*arithmetic)(Operation::Quotient(a, b), out),
{
    arithmetic(Operation::Quotient(a, b))
}

/// `a` raised to the power `b`, asked of `arithmetic`.
fn raised<F: Fn(Operation) -> Binary64>(a: Binary64, b: Binary64, arithmetic: &F) -> (out: Binary64)
    requires
        total(*arithmetic),
    ensures
        answers(*arithmetic)(Operation::Power(a, b), out),
{
    arithmetic(Operation::Power(a, b))
}

/// The square root of `a`, asked of `arithmetic`.
fn root<F: Fn(Operation) -> Binary64>(a: Binary64, arithmetic: &F) -> (out: Binary64)
    requires
        total(*arithmetic),
    ensures
        answers(*arithmetic)(Operation::SquareRoot(a), out),
{
    arithmetic(Operation::SquareRoot(a))
}

/// The inlet: total temperature and pressure at station 2 are the ambient
/// ones, as no inlet loss is modelled.  Returns `(tt2, pt2)`.
pub fn inlet() -> (station: (Binary64, Binary64))
    ensures
        station.0 == number(TA),
        station.1 == number(PA),
{
    (Binary64::from_bits(TA), Binary64::from_bits(PA))
}

/// The compressor, at pressure ratio `pi_c` and efficiency `eta_c`.  Returns
/// exit temperature, exit pressure and specific work, `(tt3, pt3, wc)`.
pub fn compressor<F: Fn(Operation) -> Binary64>(
    tt2: Binary64,
    pt2: Binary64,
    pi_c: Binary64,
    eta_c: Binary64,
    arithmetic: &F,
) -> (exit: (Binary64, Binary64, Binary64))
    requires
        total(*arithmetic),
    ensures
        evaluates(*arithmetic, compressor_exit_temperature(tt2, pi_c, eta_c), exit.0),
        evaluates(*arithmetic, compressor_exit_pressure(pt2, pi_c), exit.1),
        evaluates(*arithmetic, compressor_work(tt2, exit.0), exit.2),
{
    let gamma = Binary64::from_bits(GAMMA);
    let one = Binary64::from_bits(ONE);
    let cp = Binary64::from_bits(CP);
    let exponent = over(minus(gamma, one, arithmetic), gamma, arithmetic);
    let ideal = times(tt2, raised(pi_c, exponent, arithmetic), arithmetic);
    let tt3 = plus(tt2, over(minus(ideal, tt2, arithmetic), eta_c, arithmetic), arithmetic);
    let pt3 = times(pt2, pi_c, arithmetic);
    let wc = times(cp, minus(tt3, tt2, arithmetic), arithmetic);
    proof {
        reveal_with_fuel(admits, 8);
    }
    (tt3, pt3, wc)
}

/// The combustor, which heats the flow to `tt4` at pressure ratio `pi_b`.
/// Returns exit pressure and fuel-air ratio, `(pt4, f)`.
pub fn combustor<F: Fn(Operation) -> Binary64>(
    tt3: Binary64,
    pt3: Binary64,
    tt4: Binary64,
    pi_b: Binary64,
    arithmetic: &F,
) -> (exit: (Binary64, Binary64))
    requires
        total(*arithmetic),
    ensures
        evaluates(*arithmetic, combustor_exit_pressure(pt3, pi_b), exit.0),
        evaluates(*arithmetic, fuel_air_ratio(tt3, tt4), exit.1),
{
    let cp = Binary64::from_bits(CP);
    let eta_b = Binary64::from_bits(ETA_B);
    let lhv = Binary64::from_bits(LHV);
    let pt4 = times(pt3, pi_b, arithmetic);
    let heat = times(cp, minus(tt4, tt3, arithmetic), arithmetic);
    let available = minus(times(eta_b, lhv, arithmetic), times(cp, tt4, arithmetic), arithmetic);
    let f = over(heat, available, arithmetic);
    proof {
        reveal_with_fuel(admits, 4);
    }
    (pt4, f)
}

/// The turbine's work and exit temperature, for the compressor work `wc` that
/// it has to supply.  Returns `(wt, tt5)`.
pub fn turbine_temperature<F: Fn(Operation) -> Binary64>(
    wc: Binary64,
    tt4: Binary64,
    arithmetic: &F,
) -> (exit: (Binary64, Binary64))
    requires
        total(*arithmetic),
    ensures
        evaluates(*arithmetic, turbine_work(wc), exit.0),
        evaluates(*arithmetic, turbine_exit_temperature(tt4, exit.0), exit.1),
{
    let cp = Binary64::from_bits(CP);
    let eta_m = Binary64::from_bits(ETA_M);
    let wt = over(wc, eta_m, arithmetic);
    let tt5 = minus(tt4, over(wt, cp, arithmetic), arithmetic);
    proof {
        reveal_with_fuel(admits, 3);
    }
    (wt, tt5)
}

/// The turbine's exit pressure at efficiency `eta_t`, by way of the exit
/// temperature of the isentropic expansion.  Returns `(tt5s, pt5)`.
pub fn turbine_pressure<F: Fn(Operation) -> Binary64>(
    wt: Binary64,
    tt4: Binary64,
    pt4: Binary64,
    eta_t: Binary64,
    arithmetic: &F,
) -> (exit: (Binary64, Binary64))
    requires
        total(*arithmetic),
    ensures
        evaluates(*arithmetic, turbine_exit_temperature_ideal(tt4, wt, eta_t), exit.0),
        evaluates(*arithmetic, turbine_exit_pressure(pt4, exit.0, tt4), exit.1),
{
    let gamma = Binary64::from_bits(GAMMA);
    let one = Binary64::from_bits(ONE);
    let cp = Binary64::from_bits(CP);
    let tt5s = minus(tt4, over(wt, times(cp, eta_t, arithmetic), arithmetic), arithmetic);
    let ratio = over(tt5s, tt4, arithmetic);
    let exponent = over(gamma, minus(gamma, one, arithmetic), arithmetic);
    let pt5 = times(pt4, raised(ratio, exponent, arithmetic), arithmetic);
    proof {
        reveal_with_fuel(admits, 6);
    }
    (tt5s, pt5)
}

/// The nozzle, which expands the flow to ambient pressure at efficiency
/// `eta_n`.  Returns the static exit temperature and the exhaust velocity of
/// the isentropic expansion, and the exhaust velocity, `(te_s, ve_s, ve)`.
pub fn nozzle<F: Fn(Operation) -> Binary64>(
    tt5: Binary64,
    pt5: Binary64,
    eta_n: Binary64,
    arithmetic: &F,
) -> (exit: (Binary64, Binary64, Binary64))
    requires
        total(*arithmetic),
    ensures
        evaluates(*arithmetic, nozzle_exit_temperature_ideal(tt5, pt5), exit.0),
        evaluates(*arithmetic, exhaust_velocity_ideal(tt5, exit.0), exit.1),
        evaluates(*arithmetic, exhaust_velocity(eta_n, exit.1), exit.2),
{
    let gamma = Binary64::from_bits(GAMMA);
    let one = Binary64::from_bits(ONE);
    let two = Binary64::from_bits(TWO);
    let cp = Binary64::from_bits(CP);
    let pa = Binary64::from_bits(PA);
    let ratio = over(pa, pt5, arithmetic);
    let exponent = over(minus(gamma, one, arithmetic), gamma, arithmetic);
    let te_s = times(tt5, raised(ratio, exponent, arithmetic), arithmetic);
    let energy = times(times(two, cp, arithmetic), minus(tt5, te_s, arithmetic), arithmetic);
    let ve_s = root(energy, arithmetic);
    let ve = times(root(eta_n, arithmetic), ve_s, arithmetic);
    proof {
        reveal_with_fuel(admits, 6);
    }
    (te_s, ve_s, ve)
}

/// The specific thrust for fuel-air ratio `f` and exhaust velocity `ve`.
pub fn thrust<F: Fn(Operation) -> Binary64>(f: Binary64, ve: Binary64, arithmetic: &F) -> (out:
    Binary64)
    requires
        total(*arithmetic),
    ensures
        evaluates(*arithmetic, specific_thrust(f, ve), out),
{
    let one = Binary64::from_bits(ONE);
    let out = times(plus(one, f, arithmetic), ve, arithmetic);
    proof {
        reveal_with_fuel(admits, 4);
    }
    out
}

/// Evaluates the cycle for compressor pressure ratio `pi_c`, turbine inlet
/// temperature `tt4`, the efficiencies `eta_c`, `eta_t`, `eta_n` of compressor,
/// turbine and nozzle, and combustor pressure ratio `pi_b`.  Returns exhaust
/// velocity and specific thrust, or the error of the first gate that refuses.
///
/// Every arithmetic operation is asked of `arithmetic`.  Where the pressure
/// ratio is not above one, none is asked: for such a call `arithmetic` need not
/// be fit to be asked anything.
pub fn evaluate_performance<F: Fn(Operation) -> Binary64>(
    pi_c: Binary64,
    tt4: Binary64,
    eta_c: Binary64,
    eta_t: Binary64,
    eta_n: Binary64,
    pi_b: Binary64,
    arithmetic: &F,
) -> (result: Result<(Binary64, Binary64), CycleError>)
    requires
        pressure_ratio_invalid(pi_c) || total(*arithmetic),
    ensures
        evaluated(*arithmetic, pi_c, tt4, eta_c, eta_t, eta_n, pi_b, result),
{
    if let Err(error) = check_pressure_ratio(pi_c) {
        return Err(error);
    }
    let (tt2, pt2) = inlet();
    let (tt3, pt3, wc) = compressor(tt2, pt2, pi_c, eta_c, arithmetic);
    let (pt4, f) = combustor(tt3, pt3, tt4, pi_b, arithmetic);
    if let Err(error) = check_fuel_air_ratio(f) {
        proof {
            let stations = Stations {
                tt3,
                pt3,
                wc,
                pt4,
                f,
                wt: f,
                tt5: f,
                tt5s: f,
                pt5: f,
                te_s: f,
                ve_s: f,
                ve: f,
                thrust: f,
            };
            assert(stations.derived(*arithmetic, pi_c, tt4, eta_c, eta_t, eta_n, pi_b));
        }
        return Err(error);
    }
    let (wt, tt5) = turbine_temperature(wc, tt4, arithmetic);
    if let Err(error) = check_turbine_exit_temperature(tt5) {
        proof {
            let stations = Stations {
                tt3,
                pt3,
                wc,
                pt4,
                f,
                wt,
                tt5,
                tt5s: f,
                pt5: f,
                te_s: f,
                ve_s: f,
                ve: f,
                thrust: f,
            };
            assert(stations.derived(*arithmetic, pi_c, tt4, eta_c, eta_t, eta_n, pi_b));
        }
        return Err(error);
    }
    let (tt5s, pt5) = turbine_pressure(wt, tt4, pt4, eta_t, arithmetic);
    if let Err(error) = check_turbine_exit_pressure(pt5) {
        proof {
            let stations = Stations {
                tt3,
                pt3,
                wc,
                pt4,
                f,
                wt,
                tt5,
                tt5s,
                pt5,
                te_s: f,
                ve_s: f,
                ve: f,
                thrust: f,
            };
            assert(stations.derived(*arithmetic, pi_c, tt4, eta_c, eta_t, eta_n, pi_b));
        }
        return Err(error);
    }
    let (te_s, ve_s, ve) = nozzle(tt5, pt5, eta_n, arithmetic);
    let thrust = thrust(f, ve, arithmetic);
    proof {
        let stations = Stations {
            tt3,
            pt3,
            wc,
            pt4,
            f,
            wt,
            tt5,
            tt5s,
            pt5,
            te_s,
            ve_s,
            ve,
            thrust,
        };
        assert(stations.derived(*arithmetic, pi_c, tt4, eta_c, eta_t, eta_n, pi_b));
    }
    Ok((ve, thrust))
}

/// The first gate alone gives the pressure-ratio error: a result is that error
/// exactly when the pressure ratio is not above one, whatever the other five
/// inputs and whatever the arithmetic.
pub proof fn lemma_pressure_ratio_gate<F: Fn(Operation) -> Binary64>(
    arithmetic: F,
    pi_c: Binary64,
    tt4: Binary64,
    eta_c: Binary64,
    eta_t: Binary64,
    eta_n: Binary64,
    pi_b: Binary64,
    result: Result<(Binary64, Binary64), CycleError>,
)
    requires
        evaluated(arithmetic, pi_c, tt4, eta_c, eta_t, eta_n, pi_b, result),
    ensures
        pressure_ratio_invalid(pi_c) <==> result == Err::<(Binary64, Binary64), CycleError>(
            CycleError::InvalidPressureRatio,
        ),
{
}

/// A specific thrust that is returned is a value of `(1 + f) * ve`, for the
/// exhaust velocity `ve` returned with it and a fuel-air ratio `f` that the
/// run derived and that is not negative.
pub proof fn lemma_thrust_augments_velocity<F: Fn(Operation) -> Binary64>(
    arithmetic: F,
    pi_c: Binary64,
    tt4: Binary64,
    eta_c: Binary64,
    eta_t: Binary64,
    eta_n: Binary64,
    pi_b: Binary64,
    ve: Binary64,
    thrust: Binary64,
)
    requires
        evaluated(
            arithmetic,
            pi_c,
            tt4,
            eta_c,
            eta_t,
            eta_n,
            pi_b,
            Ok::<(Binary64, Binary64), CycleError>((ve, thrust)),
        ),
    ensures
        exists|tt3: Binary64, f: Binary64|
            evaluates(arithmetic, compressor_exit_temperature(number(TA), pi_c, eta_c), tt3)
                && #[trigger] evaluates(arithmetic, fuel_air_ratio(tt3, tt4), f)
                && !fuel_air_ratio_negative(f) && evaluates(
                arithmetic,
                specific_thrust(f, ve),
                thrust,
            ),
{
    let stations = choose|stations: Stations| #[trigger]
        stations.derived(arithmetic, pi_c, tt4, eta_c, eta_t, eta_n, pi_b) && Ok::<
            (Binary64, Binary64),
            CycleError,
        >((ve, thrust)) == stations.outcome();
    assert(evaluates(arithmetic, fuel_air_ratio(stations.tt3, tt4), stations.f));
}

/// Under an arithmetic with one answer to each operation, the six inputs
/// determine the result: two evaluations of the same inputs agree in every
/// bit.
pub proof fn lemma_result_unique<F: Fn(Operation) -> Binary64>(
    arithmetic: F,
    pi_c: Binary64,
    tt4: Binary64,
    eta_c: Binary64,
    eta_t: Binary64,
    eta_n: Binary64,
    pi_b: Binary64,
    first: Result<(Binary64, Binary64), CycleError>,
    second: Result<(Binary64, Binary64), CycleError>,
)
    requires
        single_valued(arithmetic),
        evaluated(arithmetic, pi_c, tt4, eta_c, eta_t, eta_n, pi_b, first),
        evaluated(arithmetic, pi_c, tt4, eta_c, eta_t, eta_n, pi_b, second),
    ensures
        first == second,
{
    if !pressure_ratio_invalid(pi_c) {
        let a = choose|stations: Stations| #[trigger]
            stations.derived(arithmetic, pi_c, tt4, eta_c, eta_t, eta_n, pi_b) && first
                == stations.outcome();
        let b = choose|stations: Stations| #[trigger]
            stations.derived(arithmetic, pi_c, tt4, eta_c, eta_t, eta_n, pi_b) && second
                == stations.outcome();
        lemma_value_unique(
            arithmetic,
            compressor_exit_temperature(number(TA), pi_c, eta_c),
            a.tt3,
            b.tt3,
        );
        lemma_value_unique(arithmetic, compressor_exit_pressure(number(PA), pi_c), a.pt3, b.pt3);
        lemma_value_unique(arithmetic, compressor_work(number(TA), a.tt3), a.wc, b.wc);
        lemma_value_unique(arithmetic, combustor_exit_pressure(a.pt3, pi_b), a.pt4, b.pt4);
        lemma_value_unique(arithmetic, fuel_air_ratio(a.tt3, tt4), a.f, b.f);
        if !fuel_air_ratio_negative(a.f) {
            lemma_value_unique(arithmetic, turbine_work(a.wc), a.wt, b.wt);
            lemma_value_unique(arithmetic, turbine_exit_temperature(tt4, a.wt), a.tt5, b.tt5);
            if !turbine_exit_temperature_negative(a.tt5) {
                lemma_value_unique(
                    arithmetic,
                    turbine_exit_temperature_ideal(tt4, a.wt, eta_t),
                    a.tt5s,
                    b.tt5s,
                );
                lemma_value_unique(
                    arithmetic,
                    turbine_exit_pressure(a.pt4, a.tt5s, tt4),
                    a.pt5,
                    b.pt5,
                );
                if !turbine_exit_pressure_subambient(a.pt5) {
                    lemma_value_unique(
                        arithmetic,
                        nozzle_exit_temperature_ideal(a.tt5, a.pt5),
                        a.te_s,
                        b.te_s,
                    );
                    lemma_value_unique(
                        arithmetic,
                        exhaust_velocity_ideal(a.tt5, a.te_s),
                        a.ve_s,
                        b.ve_s,
                    );
                    lemma_value_unique(arithmetic, exhaust_velocity(eta_n, a.ve_s), a.ve, b.ve);
                    lemma_value_unique(arithmetic, specific_thrust(a.f, a.ve), a.thrust, b.thrust);
                }
            }
        }
    }
}

} // verus!
