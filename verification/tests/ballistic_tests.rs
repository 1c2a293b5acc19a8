use ballistic_sight::ballistic_calculator::{
    calculate_drift, pi, BBDrift, CalculatorConfiguration, Float,
};
use ballistic_sight::physics::{drag_force, magnus_force, velocity_from_kinetic_energy};

fn make_config() -> CalculatorConfiguration {
    CalculatorConfiguration {
        magnus_effect_angular_velocity: Float::from(10),
        bb_weight: Float::new(4, 10000),
        muzzle_energy: Float::new(15, 10),
        angle_of_elevation: Float::zero(),
    }
}

#[test]
fn test_calculate_drift_basic() {
    let config = make_config();
    let _drift = calculate_drift(&config, Float::from(10));
}

#[test]
fn test_zero_range() {
    let config = make_config();
    let drift = calculate_drift(&config, Float::zero());
    assert_eq!(drift, BBDrift::default());
}

#[test]
fn test_zero_energy() {
    let mut config = make_config();
    config.muzzle_energy = Float::zero();
    let drift = calculate_drift(&config, Float::from(10));
    assert_eq!(drift, BBDrift::default());
}

#[test]
fn test_negative_range() {
    let config = make_config();
    let drift = calculate_drift(&config, Float::from(-5));
    assert_eq!(drift, BBDrift::default());
}

#[test]
fn test_large_range() {
    let config = make_config();
    let _drift = calculate_drift(&config, Float::from(1000));
    // Should not panic and should return a BBDrift
}

#[test]
fn test_extreme_magnus() {
    let mut config = make_config();
    config.magnus_effect_angular_velocity = Float::from(10000);
    let _drift = calculate_drift(&config, Float::from(10));
}

#[test]
fn test_default_config() {
    let config = CalculatorConfiguration::default();
    let _drift = calculate_drift(&config, Float::from(10));
}

#[test]
fn test_no_panic_various_inputs() {
    let configs = [
        CalculatorConfiguration::default(),
        CalculatorConfiguration {
            magnus_effect_angular_velocity: Float::from(0),
            bb_weight: Float::from(1),
            muzzle_energy: Float::from(1),
            angle_of_elevation: Float::zero(),
        },
        CalculatorConfiguration {
            magnus_effect_angular_velocity: Float::from(-10),
            bb_weight: Float::from(1),
            muzzle_energy: Float::from(1),
            angle_of_elevation: Float::zero(),
        },
    ];
    let ranges = [Float::from(0), Float::from(1), Float::from(100), Float::from(-1)];
    for config in configs.iter() {
        for range in ranges.iter() {
            let _ = calculate_drift(config, *range);
        }
    }
}

#[test]
fn test_drift_signs_at_ten_meters() {
    // Ten iterations at most; gravity pulls the vertical drift below
    // zero, positive spin pushes the lateral drift above it.
    let config = make_config();
    let drift = calculate_drift(&config, Float::from(10));
    assert!(drift.drift_y.numerator < 0);
    assert!(drift.drift_y.denominator > 0);
    assert!(drift.drift_x.numerator > 0);
    assert!(drift.drift_x.denominator > 0);
}

#[test]
fn test_zero_spin_zero_lateral_drift() {
    let mut config = make_config();
    config.magnus_effect_angular_velocity = Float::zero();
    for range in [1, 5, 10, 50] {
        let drift = calculate_drift(&config, Float::from(range));
        assert_eq!(drift.drift_x, Float::zero());
    }
}

#[test]
fn test_more_spin_no_less_magnus() {
    let v = velocity_from_kinetic_energy(Float::new(15, 10), Float::new(4, 10000));
    let rho = Float::new(18, 10);
    let radius = Float::new(3, 1000);
    let slow = magnus_force(v, Float::from(10), rho, radius);
    let fast = magnus_force(v, Float::from(20), rho, radius);
    assert!(!(slow > fast));
}

#[test]
fn test_velocity_from_kinetic_energy_exact() {
    // sqrt(2 * 1.5 / 0.0004) = sqrt(7500), floored to 86.
    let v = velocity_from_kinetic_energy(Float::new(15, 10), Float::new(4, 10000));
    assert_eq!(v, Float::new(86, 1));
}

#[test]
fn test_drag_force_exact() {
    // 1/2 * 1/2 * 1 * 1 * 2^2 = 1
    let f = drag_force(Float::from(2), Float::new(1, 2), Float::from(1), Float::from(1));
    assert_eq!(f, Float::new(1, 1));
}

#[test]
fn test_magnus_force_exact() {
    // 1/2 * 1 * 1^3 * 2 * 3 = 3
    let f = magnus_force(Float::from(2), Float::from(3), Float::from(1), Float::from(1));
    assert_eq!(f, Float::new(3, 1));
}

#[test]
fn test_magnus_force_zero_spin() {
    let f = magnus_force(Float::from(2), Float::zero(), Float::from(1), Float::from(1));
    assert_eq!(f.numerator, 0);
}

#[test]
fn test_pi_constant() {
    assert_eq!(pi(), Float::new(22, 7));
}
