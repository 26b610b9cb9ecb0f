use pumpkin_data::double_bits::{
    is_nan, less_than, HALF, MINUS_HALF, MINUS_THREE_QUARTERS, ONE, ONE_AND_A_HALF, THREE,
    THREE_QUARTERS, TWO, ZERO,
};
use pumpkin_data::noise_router::{
    BinaryData, BinaryOperation, ClampData, FindTopSurfaceData, LinearOperation, UnaryData,
    UnaryOperation, WeirdScaledMapper, WrapperType,
};

fn tunnels(v: f64) -> f64 {
    f64::from_bits(WeirdScaledMapper::Tunnels.scale(v.to_bits()))
}

fn caves(v: f64) -> f64 {
    f64::from_bits(WeirdScaledMapper::Caves.scale(v.to_bits()))
}

fn clamp(min: f64, max: f64, v: f64) -> f64 {
    let data = ClampData { min_value: min.to_bits(), max_value: max.to_bits() };
    f64::from_bits(data.apply_density(v.to_bits()))
}

#[test]
fn named_constants_are_their_doubles() {
    assert_eq!(f64::from_bits(MINUS_THREE_QUARTERS), -0.75);
    assert_eq!(f64::from_bits(MINUS_HALF), -0.5);
    assert_eq!(f64::from_bits(ZERO), 0.0);
    assert!(f64::from_bits(ZERO).is_sign_positive());
    assert_eq!(f64::from_bits(HALF), 0.5);
    assert_eq!(f64::from_bits(THREE_QUARTERS), 0.75);
    assert_eq!(f64::from_bits(ONE), 1.0);
    assert_eq!(f64::from_bits(ONE_AND_A_HALF), 1.5);
    assert_eq!(f64::from_bits(TWO), 2.0);
    assert_eq!(f64::from_bits(THREE), 3.0);
}

#[test]
fn max_multiplier_values() {
    assert_eq!(f64::from_bits(WeirdScaledMapper::Tunnels.max_multiplier()), 2.0);
    assert_eq!(f64::from_bits(WeirdScaledMapper::Caves.max_multiplier()), 3.0);
}

#[test]
fn tunnels_curve() {
    assert_eq!(tunnels(-10.0), 0.75);
    assert_eq!(tunnels(-0.5000001), 0.75);
    assert_eq!(tunnels(-0.5), 1.0);
    assert_eq!(tunnels(-0.25), 1.0);
    assert_eq!(tunnels(-0.0), 1.5);
    assert_eq!(tunnels(0.0), 1.5);
    assert_eq!(tunnels(0.49999), 1.5);
    assert_eq!(tunnels(0.5), 2.0);
    assert_eq!(tunnels(7.0), 2.0);
    assert_eq!(tunnels(f64::NEG_INFINITY), 0.75);
    assert_eq!(tunnels(f64::INFINITY), 2.0);
    assert_eq!(tunnels(f64::NAN), 2.0);
}

#[test]
fn caves_curve() {
    assert_eq!(caves(-1.0), 0.5);
    assert_eq!(caves(-0.75), 0.75);
    assert_eq!(caves(-0.6), 0.75);
    assert_eq!(caves(-0.5), 1.0);
    assert_eq!(caves(0.0), 1.0);
    assert_eq!(caves(0.4999), 1.0);
    assert_eq!(caves(0.5), 2.0);
    assert_eq!(caves(0.7), 2.0);
    assert_eq!(caves(0.75), 3.0);
    assert_eq!(caves(100.0), 3.0);
    assert_eq!(caves(f64::NEG_INFINITY), 0.5);
    assert_eq!(caves(f64::NAN), 3.0);
    assert_eq!(caves(-f64::NAN), 3.0);
}

#[test]
fn scale_never_exceeds_max_multiplier() {
    let samples = [-2.0, -0.75, -0.6, -0.5, -0.1, -0.0, 0.0, 0.3, 0.5, 0.6, 0.75, 4.0, f64::NAN];
    for m in [WeirdScaledMapper::Tunnels, WeirdScaledMapper::Caves] {
        let max = f64::from_bits(m.max_multiplier());
        let mut previous = 0.0;
        for v in samples {
            let s = f64::from_bits(m.scale(v.to_bits()));
            assert!(s <= max);
            assert!(s >= 0.5);
            if !v.is_nan() {
                assert!(s >= previous);
                previous = s;
            }
        }
    }
}

#[test]
fn scale_agrees_with_f64_comparisons() {
    let mut v = -1.0f64;
    while v <= 1.0 {
        let t = if v < -0.5 { 0.75 } else if v < 0.0 { 1.0 } else if v < 0.5 { 1.5 } else { 2.0 };
        assert_eq!(tunnels(v), t);
        let c = if v < -0.75 {
            0.5
        } else if v < -0.5 {
            0.75
        } else if v < 0.5 {
            1.0
        } else if v < 0.75 {
            2.0
        } else {
            3.0
        };
        assert_eq!(caves(v), c);
        v += 0.0625;
    }
}

#[test]
fn less_than_matches_f64() {
    let values = [
        f64::NEG_INFINITY, -3.5, -1.0, -f64::MIN_POSITIVE, -0.0, 0.0, f64::MIN_POSITIVE, 1e-300,
        0.25, 1.0, 2.5e10, f64::MAX, f64::INFINITY, f64::NAN,
    ];
    for a in values {
        assert_eq!(is_nan(a.to_bits()), a.is_nan());
        for b in values {
            assert_eq!(less_than(a.to_bits(), b.to_bits()), a < b);
        }
    }
}

#[test]
fn clamp_below_inside_above() {
    assert_eq!(clamp(-1.0, 1.0, -3.0), -1.0);
    assert_eq!(clamp(-1.0, 1.0, 0.25), 0.25);
    assert_eq!(clamp(-1.0, 1.0, 3.0), 1.0);
    assert_eq!(clamp(-1.0, 1.0, f64::INFINITY), 1.0);
    assert_eq!(clamp(-1.0, 1.0, f64::NEG_INFINITY), -1.0);
    assert!(clamp(-1.0, 1.0, f64::NAN).is_nan());
    assert_eq!(clamp(0.5, 0.5, 7.0), 0.5);
}

#[test]
fn clamp_agrees_with_f64_clamp() {
    let bounds = [(-1.0, 1.0), (0.0, 64.0), (-0.0, 0.0), (2.0, 2.0), (-64.0, -0.5)];
    let values = [-100.0, -1.0, -0.5, -0.0, 0.0, 0.5, 1.0, 64.0, 1e9, f64::NAN];
    for (lo, hi) in bounds {
        for v in values {
            let ours = clamp(lo, hi, v);
            let std = v.clamp(lo, hi);
            assert_eq!(ours.to_bits(), std.to_bits());
        }
    }
}

#[test]
fn clamp_is_idempotent() {
    for v in [-5.0, -0.3, 0.0, 0.9, 12.0] {
        let once = clamp(-0.5, 1.0, v);
        assert_eq!(clamp(-0.5, 1.0, once), once);
        assert!(once >= -0.5 && once <= 1.0);
    }
}

#[test]
fn plain_data_types() {
    let surface = FindTopSurfaceData { lower_bound: -64, cell_height: 8 };
    assert_eq!(surface.lower_bound, -64);
    assert_eq!(surface.cell_height, 8);
    let binary = BinaryData { operation: BinaryOperation::Max };
    assert!(matches!(binary.operation, BinaryOperation::Max));
    let unary = UnaryData { operation: UnaryOperation::Squeeze };
    let copied = unary.operation;
    assert!(matches!(copied, UnaryOperation::Squeeze));
    assert!(matches!(unary.operation, UnaryOperation::Squeeze));
    assert!(matches!(LinearOperation::Mul, LinearOperation::Mul));
    assert!(matches!(WrapperType::Cache2D, WrapperType::Cache2D));
}
