//! The fixed gas, fuel and ambient properties of the cycle.
//!
//! Each constant is the binary64 encoding of the value that its comment gives;
//! `lemma_constants` proves so.

use vstd::prelude::*;
use vstd::arithmetic::power2::lemma2_to64;
use vstd::arithmetic::power2::lemma2_to64_rest;
use vstd::arithmetic::power2::lemma_pow2_adds;
use vstd::arithmetic::power2::lemma_pow2_pos;
use vstd::arithmetic::power2::pow2;
use crate::binary64::integer;
use crate::binary64::lemma_normal_value;
use crate::binary64::Binary64;

verus! {

/// The number 0.
pub const ZERO: u64 = 0x0000_0000_0000_0000;

/// The number 1.
pub const ONE: u64 = 0x3FF0_0000_0000_0000;

/// The number 2.
pub const TWO: u64 = 0x4000_0000_0000_0000;

/// Ratio of specific heats of the gas, 1.4.
pub const GAMMA: u64 = 0x3FF6_6666_6666_6666;

/// Specific heat of the gas at constant pressure, 1004.5 J/(kg K).
pub const CP: u64 = 0x408F_6400_0000_0000;

/// Lower heating value of the fuel, 43 000 000 J/kg.
pub const LHV: u64 = 0x4184_8106_0000_0000;

/// Efficiency of the burner, 0.98.
pub const ETA_B: u64 = 0x3FEF_5C28_F5C2_8F5C;

/// Efficiency of the shaft between turbine and compressor, 0.99.
pub const ETA_M: u64 = 0x3FEF_AE14_7AE1_47AE;

/// Ambient static temperature, 288.15 K.
pub const TA: u64 = 0x4072_0266_6666_6666;

/// Ambient static pressure, 101 325 Pa.
pub const PA: u64 = 0x40F8_BCD0_0000_0000;

/// The number with the encoding `bits`.
pub open spec fn number(bits: u64) -> Binary64 {
    Binary64 { bits }
}

/// Two to the power 1074, as a multiple of a smaller power of two.
proof fn lemma_unit_split(low: nat, high: nat, factor: int)
    requires
        low + high == 1074,
        pow2(low) == factor,
    ensures
        pow2(1074) == factor * pow2(high),
        pow2(high) > 0,
{
    lemma_pow2_adds(low, high);
    lemma_pow2_pos(high);
}

/// Each constant denotes the value it is named for: exactly where binary64
/// holds that value, else to within half the spacing of binary64 numbers
/// there.
pub proof fn lemma_constants()
    ensures
        number(ZERO)@ == integer(0),
        number(ONE)@ == integer(1),
        number(TWO)@ == integer(2),
        number(GAMMA).approximates_ratio(7, 5),
        number(CP).is_ratio(2009, 2),
        number(LHV)@ == integer(43_000_000),
        number(ETA_B).approximates_ratio(49, 50),
        number(ETA_M).approximates_ratio(99, 100),
        number(TA).approximates_ratio(5763, 20),
        number(PA)@ == integer(101_325),
{
    lemma2_to64();
    lemma2_to64_rest();
    assert(number(ONE)@ == integer(1)) by {
        lemma_unit_split(52, 1022, 0x10_0000_0000_0000);
    }
    assert(number(TWO)@ == integer(2)) by {
        lemma_unit_split(51, 1023, 0x8_0000_0000_0000);
    }
    assert(number(GAMMA).approximates_ratio(7, 5)) by {
        lemma_normal_value(number(GAMMA), 1023, 6305039478318694);
        lemma_unit_split(52, 1022, 0x10_0000_0000_0000);
    }
    assert(number(CP).is_ratio(2009, 2)) by {
        lemma_normal_value(number(CP), 1032, 8835675440807936);
        lemma_unit_split(43, 1031, 0x800_0000_0000);
    }
    assert(number(LHV)@ == integer(43_000_000)) by {
        lemma_normal_value(number(LHV), 1048, 5771362304000000);
        lemma_unit_split(27, 1047, 0x800_0000);
    }
    assert(number(ETA_B).approximates_ratio(49, 50)) by {
        lemma_normal_value(number(ETA_B), 1022, 8827055269646172);
        lemma_unit_split(53, 1021, 0x20_0000_0000_0000);
    }
    assert(number(ETA_M).approximates_ratio(99, 100)) by {
        lemma_normal_value(number(ETA_M), 1022, 8917127262193582);
        lemma_unit_split(53, 1021, 0x20_0000_0000_0000);
    }
    assert(number(TA).approximates_ratio(5763, 20)) by {
        lemma_normal_value(number(TA), 1031, 5069188408698470);
        lemma_unit_split(44, 1030, 0x1000_0000_0000);
    }
    assert(number(PA)@ == integer(101_325)) by {
        lemma_normal_value(number(PA), 1039, 6963000980275200);
        lemma_unit_split(36, 1038, 0x10_0000_0000);
    }
}

} // verus!
