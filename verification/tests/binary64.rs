use mc_turbojet::binary64::Binary64;
use mc_turbojet::constants::CP;
use mc_turbojet::constants::ETA_B;
use mc_turbojet::constants::ETA_M;
use mc_turbojet::constants::GAMMA;
use mc_turbojet::constants::LHV;
use mc_turbojet::constants::ONE;
use mc_turbojet::constants::PA;
use mc_turbojet::constants::TA;
use mc_turbojet::constants::TWO;
use mc_turbojet::constants::ZERO;

fn enc(x: f64) -> Binary64 {
    Binary64::from_bits(x.to_bits())
}

fn samples() -> Vec<f64> {
    vec![
        0.0,
        -0.0,
        f64::from_bits(1),
        -f64::from_bits(1),
        f64::from_bits(0x000F_FFFF_FFFF_FFFF),
        f64::MIN_POSITIVE,
        -f64::MIN_POSITIVE,
        0.5,
        1.0 - f64::EPSILON / 2.0,
        1.0,
        1.0 + f64::EPSILON,
        -1.0,
        1.4,
        2.0,
        -2.0,
        288.15,
        101324.99999999999,
        101325.0,
        101325.00000000001,
        -101325.0,
        1e300,
        -1e300,
        f64::MAX,
        f64::MIN,
        f64::INFINITY,
        f64::NEG_INFINITY,
        f64::NAN,
        -f64::NAN,
        f64::from_bits(0x7FF0_0000_0000_0001),
        f64::from_bits(0xFFFF_FFFF_FFFF_FFFF),
    ]
}

#[test]
fn less_than_agrees_with_the_machine() {
    for a in samples() {
        for b in samples() {
            assert_eq!(enc(a).lt(enc(b)), a < b, "{:?} < {:?}", a, b);
        }
    }
}

#[test]
fn at_most_agrees_with_the_machine() {
    for a in samples() {
        for b in samples() {
            assert_eq!(enc(a).le(enc(b)), a <= b, "{:?} <= {:?}", a, b);
        }
    }
}

#[test]
fn not_a_number_is_told_from_numbers() {
    for a in samples() {
        assert_eq!(enc(a).is_nan(), a.is_nan(), "{:?}", a);
    }
}

#[test]
fn the_two_zeros_are_equal_in_order() {
    assert!(!enc(-0.0).lt(enc(0.0)));
    assert!(!enc(0.0).lt(enc(-0.0)));
    assert!(enc(-0.0).le(enc(0.0)));
    assert!(enc(0.0).le(enc(-0.0)));
}

#[test]
fn not_a_number_is_in_no_order() {
    for a in samples() {
        assert!(!enc(f64::NAN).lt(enc(a)));
        assert!(!enc(a).lt(enc(f64::NAN)));
        assert!(!enc(f64::NAN).le(enc(a)));
        assert!(!enc(a).le(enc(f64::NAN)));
    }
}

#[test]
fn encodings_round_trip() {
    for bits in [0u64, 1, 0x3FF0_0000_0000_0000, 0x8000_0000_0000_0000, u64::MAX] {
        assert_eq!(Binary64::from_bits(bits).to_bits(), bits);
        assert_eq!(Binary64::from_bits(bits).bits, bits);
    }
    assert_eq!(enc(1.0).to_bits(), 0x3FF0_0000_0000_0000);
}

#[test]
fn constants_encode_their_values() {
    assert_eq!(f64::from_bits(ZERO), 0.0);
    assert!(f64::from_bits(ZERO).is_sign_positive());
    assert_eq!(f64::from_bits(ONE), 1.0);
    assert_eq!(f64::from_bits(TWO), 2.0);
    assert_eq!(f64::from_bits(GAMMA), 1.4);
    assert_eq!(f64::from_bits(CP), 1004.5);
    assert_eq!(f64::from_bits(LHV), 43e6);
    assert_eq!(f64::from_bits(ETA_B), 0.98);
    assert_eq!(f64::from_bits(ETA_M), 0.99);
    assert_eq!(f64::from_bits(TA), 288.15);
    assert_eq!(f64::from_bits(PA), 101325.0);
}
