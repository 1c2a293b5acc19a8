//! The stepped ballistic drift simulator: a fixed-step integration along
//! distance that turns a firing configuration and a requested range into
//! the accumulated lateral (spin-induced) and vertical (gravity-induced)
//! drift.

use crate::arith::sat32;
use crate::fraction::{
    lemma_cmp_zero, lemma_step_count_bounded, lemma_unit_step_add, lemma_wf_add, lemma_wf_div,
    lemma_wf_div_scalar, lemma_wf_mul, lemma_wf_sub, lemma_zero_add, spec_abs, spec_add, spec_div,
    spec_div_scalar, spec_gt, spec_le, spec_lt, spec_max, spec_mul, spec_sub, spec_zero, wf,
    Fraction,
};
use crate::physics::{
    drag_force, magnus_force, spec_drag_force, spec_magnus_force,
    spec_velocity_from_kinetic_energy, velocity_from_kinetic_energy,
};
use vstd::prelude::*;

verus! {

/// The numeric domain of the simulator: the exact bounded fraction.
pub type Float = Fraction;

/// The circle constant, as the classic ratio approximation.
pub open spec fn spec_pi() -> Fraction {
    Fraction { numerator: 22, denominator: 7 }
}

/// The circle constant, 22/7.
pub fn pi() -> (r: Float)
    ensures
        r == spec_pi(),
{
    Fraction { numerator: 22, denominator: 7 }
}

/// Projectile diameter: 6 mm, in meters.
pub open spec fn spec_bb_diameter() -> Fraction {
    Fraction { numerator: 6, denominator: 1000 }
}

fn bb_diameter() -> (r: Float)
    ensures
        r == spec_bb_diameter(),
{
    Fraction { numerator: 6, denominator: 1000 }
}

/// Spatial integration step: one meter.
pub open spec fn spec_simulation_step() -> Fraction {
    Fraction { numerator: 1, denominator: 1 }
}

fn simulation_step() -> (r: Float)
    ensures
        r == spec_simulation_step(),
{
    Fraction { numerator: 1, denominator: 1 }
}

/// Gravitational acceleration: 9.81 m/s^2.
pub open spec fn spec_gravity() -> Fraction {
    Fraction { numerator: 981, denominator: 100 }
}

fn gravity() -> (r: Float)
    ensures
        r == spec_gravity(),
{
    Fraction { numerator: 981, denominator: 100 }
}

/// Air density at sea level: 1.8 kg/m^3 in this model.
pub open spec fn spec_air_density() -> Fraction {
    Fraction { numerator: 18, denominator: 10 }
}

fn air_density() -> (r: Float)
    ensures
        r == spec_air_density(),
{
    Fraction { numerator: 18, denominator: 10 }
}

/// Drag coefficient of a spinning sphere: 0.43.
pub open spec fn spec_drag_coefficient() -> Fraction {
    Fraction { numerator: 43, denominator: 100 }
}

fn drag_coefficient() -> (r: Float)
    ensures
        r == spec_drag_coefficient(),
{
    Fraction { numerator: 43, denominator: 100 }
}

/// The immutable firing configuration handed to the simulator.
#[derive(Clone, Copy, Debug, PartialEq, Eq, Structural)]
pub struct CalculatorConfiguration {
    /// Configured spin, in radians per second.
    pub magnus_effect_angular_velocity: Float,
    /// Projectile mass, in grams.
    pub bb_weight: Float,
    /// Muzzle kinetic energy, in joules.
    pub muzzle_energy: Float,
    /// Angle of elevation of the launcher.
    pub angle_of_elevation: Float,
}

/// The default configuration: a 0.4 g projectile at 1.9 J with 15 rad/s
/// of spin, fired level.
pub open spec fn spec_default_configuration() -> CalculatorConfiguration {
    CalculatorConfiguration {
        magnus_effect_angular_velocity: Fraction { numerator: 15, denominator: 1 },
        bb_weight: Fraction { numerator: 4, denominator: 10000 },
        muzzle_energy: Fraction { numerator: 19, denominator: 10 },
        angle_of_elevation: spec_zero(),
    }
}

impl Default for CalculatorConfiguration {
    fn default() -> (r: Self)
        ensures
            r == spec_default_configuration(),
    {
        CalculatorConfiguration {
            magnus_effect_angular_velocity: Fraction::from(15),  // rad/s
            bb_weight: Fraction::new(4, 10000),
            muzzle_energy: Fraction::new(19, 10),
            angle_of_elevation: Fraction::zero(),
        }
    }
}

/// The accumulated drift pair, in meters.
#[derive(Clone, Copy, Debug, PartialEq, Eq, Structural)]
pub struct BBDrift {
    /// Lateral, spin-induced displacement.
    pub drift_x: Float,
    /// Vertical, gravity-induced displacement.
    pub drift_y: Float,
}

/// The zero-valued drift pair.
pub open spec fn spec_zero_drift() -> BBDrift {
    BBDrift { drift_x: spec_zero(), drift_y: spec_zero() }
}

impl Default for BBDrift {
    fn default() -> (r: Self)
        ensures
            r == spec_zero_drift(),
    {
        BBDrift { drift_x: Fraction::zero(), drift_y: Fraction::zero() }
    }
}

impl BBDrift {
    /// Builds the drift pair from its components.
    pub fn new(drift_x: Float, drift_y: Float) -> (r: Self)
        ensures
            r.drift_x == drift_x,
            r.drift_y == drift_y,
    {
        BBDrift { drift_x, drift_y }
    }
}

/// The per-call simulation state: exclusively owned by one running
/// simulation and discarded when the call returns.
pub struct BBStateVector {
    /// Traveled distance, in meters.
    pub position: Float,
    /// Elapsed time, in seconds.
    pub time: Float,
    /// Projectile mass, copied from the configuration.
    pub mass: Float,
    /// Remaining kinetic energy.
    pub kinetic_energy: Float,
    /// Spin, copied from the configuration.
    pub rotation: Float,
}

impl BBStateVector {
    /// Instantaneous velocity from the remaining kinetic energy.
    pub fn velocity(&self) -> (r: Float)
        requires
            wf(self.kinetic_energy),
            wf(self.mass),
            self.mass.numerator >= 1,
        ensures
            r == spec_velocity_from_kinetic_energy(self.kinetic_energy, self.mass),
            wf(r),
    {
        velocity_from_kinetic_energy(self.kinetic_energy, self.mass)
    }
}

/// One snapshot of the integration: everything the loop mutates.
pub struct SimState {
    /// Distance covered so far.
    pub traveled: Fraction,
    /// Remaining kinetic energy.
    pub kinetic_energy: Fraction,
    /// Accumulated lateral drift.
    pub drift_x: Fraction,
    /// Accumulated vertical drift.
    pub drift_y: Fraction,
    /// Position along the trajectory.
    pub position: Fraction,
    /// Elapsed time.
    pub time: Fraction,
}

/// The state at the start of a simulation.
pub open spec fn sim_init(config: CalculatorConfiguration) -> SimState {
    SimState {
        traveled: Fraction { numerator: 0, denominator: 1 },
        kinetic_energy: config.muzzle_energy,
        drift_x: spec_zero(),
        drift_y: spec_zero(),
        position: Fraction { numerator: 0, denominator: 1 },
        time: Fraction { numerator: 0, denominator: 1 },
    }
}

/// The instantaneous velocity in a state.
pub open spec fn sim_velocity(config: CalculatorConfiguration, s: SimState) -> Fraction {
    spec_velocity_from_kinetic_energy(s.kinetic_energy, config.bb_weight)
}

/// Whether the integration takes another step from this state: range not
/// yet covered, kinetic energy left, and the projectile still moving.
pub open spec fn sim_enabled(
    config: CalculatorConfiguration,
    range: Fraction,
    s: SimState,
) -> bool {
    &&& spec_lt(s.traveled, range)
    &&& spec_gt(s.kinetic_energy, spec_zero())
    &&& !spec_le(sim_velocity(config, s), spec_zero())
}

/// One integration step: drag and Magnus forces at the current velocity,
/// a local time increment for the fixed spatial step, the two drift
/// accumulations, and the energy lost to drag, floored at zero.
pub open spec fn sim_step(config: CalculatorConfiguration, s: SimState) -> SimState {
    let v = sim_velocity(config, s);
    let radius = spec_div_scalar(spec_bb_diameter(), 2);
    let area = spec_mul(spec_mul(spec_pi(), radius), radius);
    let drag = spec_drag_force(v, spec_drag_coefficient(), spec_air_density(), area);
    let magnus = spec_magnus_force(
        v,
        config.magnus_effect_angular_velocity,
        spec_air_density(),
        radius,
    );
    let dt = spec_abs(spec_div(spec_simulation_step(), v));
    let accel_x = spec_div(magnus, config.bb_weight);
    let inc_x = spec_div_scalar(spec_mul(spec_mul(accel_x, dt), dt), 2);
    let accel_y = Fraction { numerator: -981i32, denominator: 100 };
    let inc_y = spec_div_scalar(spec_mul(spec_mul(accel_y, dt), dt), 2);
    let work = spec_mul(drag, spec_simulation_step());
    SimState {
        traveled: spec_add(s.traveled, spec_simulation_step()),
        kinetic_energy: spec_max(spec_sub(s.kinetic_energy, work), spec_zero()),
        drift_x: spec_add(s.drift_x, inc_x),
        drift_y: spec_add(s.drift_y, inc_y),
        position: spec_add(s.position, spec_simulation_step()),
        time: spec_add(s.time, dt),
    }
}

/// The configuration values the integration arithmetic relies on: a
/// positive projectile mass and denominators that denote rationals.
pub open spec fn config_wf(config: CalculatorConfiguration) -> bool {
    &&& wf(config.bb_weight)
    &&& config.bb_weight.numerator >= 1
    &&& wf(config.muzzle_energy)
    &&& wf(config.magnus_effect_angular_velocity)
}

/// The state after `n` loop iterations: steps while the loop is enabled,
/// then stays fixed.
pub open spec fn sim_run(
    config: CalculatorConfiguration,
    range: Fraction,
    n: nat,
) -> SimState
    decreases n,
{
    if n == 0 {
        sim_init(config)
    } else {
        let prev = sim_run(config, range, (n - 1) as nat);
        if sim_enabled(config, range, prev) {
            sim_step(config, prev)
        } else {
            prev
        }
    }
}

/// The drift pair is the one of the mathematical run at an index where
/// the integration is no longer enabled.  Once disabled the run stays
/// fixed, so every such index carries the same pair: the result is
/// pinned.
pub open spec fn drift_result(
    config: CalculatorConfiguration,
    range: Fraction,
    d: BBDrift,
) -> bool {
    exists|n: nat| #![auto]
        !sim_enabled(config, range, sim_run(config, range, n)) && d.drift_x == sim_run(
            config,
            range,
            n,
        ).drift_x && d.drift_y == sim_run(config, range, n).drift_y
}

/// Once the integration is disabled it never moves again: every later
/// index of the run carries the same state.  The drift pair a
/// `drift_result` describes is therefore unique.
pub proof fn lemma_run_stays_disabled(
    config: CalculatorConfiguration,
    range: Fraction,
    n: nat,
    m: nat,
)
    requires
        !sim_enabled(config, range, sim_run(config, range, n)),
        n <= m,
    ensures
        sim_run(config, range, m) == sim_run(config, range, n),
    decreases m,
{
    if m > n {
        lemma_run_stays_disabled(config, range, n, (m - 1) as nat);
    }
}

/// Runs the fixed-step integration from the borrowed configuration up to
/// the requested range and returns the accumulated drift pair: the state
/// of the mathematical run `sim_run` at an index where the loop is no
/// longer enabled.
///
/// A non-positive requested range or non-positive muzzle energy never
/// enters the loop and yields the zero drift immediately; zero configured
/// spin yields zero lateral drift at every range.
pub fn calculate_drift(config: &CalculatorConfiguration, range: Float) -> (r: BBDrift)
    requires
        range.numerator >= 1 && config.muzzle_energy.numerator >= 1 ==> config_wf(*config) && wf(
            range,
        ),
    ensures
        drift_result(*config, range, r),
        range.numerator <= 0 ==> r == spec_zero_drift(),
        config.muzzle_energy.numerator <= 0 ==> r == spec_zero_drift(),
        config.magnus_effect_angular_velocity.numerator == 0 ==> r.drift_x == spec_zero(),
{
    let mut state = BBStateVector {
        position: Fraction::from(0),
        time: Fraction::from(0),
        mass: config.bb_weight,
        kinetic_energy: config.muzzle_energy,
        rotation: config.magnus_effect_angular_velocity,
    };

    let mut drift_x = Float::zero();
    let mut drift_y = Float::zero();

    let step = simulation_step();
    let mut traveled = Fraction::from(0);

    let ghost cfg = *config;
    let ghost mut steps: nat = 0;

    while traveled < range && state.kinetic_energy > Float::zero()
        invariant
            cfg == *config,
            range.numerator >= 1 && cfg.muzzle_energy.numerator >= 1 ==> config_wf(cfg) && wf(
                range,
            ),
            state.mass == cfg.bb_weight,
            state.rotation == cfg.magnus_effect_angular_velocity,
            step == spec_simulation_step(),
            traveled.denominator == 1 && 0 <= traveled.numerator,
            wf(drift_x) && wf(drift_y),
            wf(state.position) && wf(state.time),
            steps > 0 ==> range.numerator >= 1 && cfg.muzzle_energy.numerator >= 1,
            steps > 0 ==> wf(state.kinetic_energy),
            traveled == sim_run(cfg, range, steps).traveled,
            state.kinetic_energy == sim_run(cfg, range, steps).kinetic_energy,
            drift_x == sim_run(cfg, range, steps).drift_x,
            drift_y == sim_run(cfg, range, steps).drift_y,
            state.position == sim_run(cfg, range, steps).position,
            state.time == sim_run(cfg, range, steps).time,
            cfg.magnus_effect_angular_velocity.numerator == 0 ==> drift_x == spec_zero(),
        ensures
            !sim_enabled(cfg, range, sim_run(cfg, range, steps)),
        decreases i32::MAX as int - traveled.numerator as int,
    {
        proof {
            lemma_cmp_zero(state.kinetic_energy);
            if steps == 0 {
                assert(0int * range.denominator as int == 0) by (nonlinear_arith);
                assert(range.numerator as int * 1 == range.numerator as int);
                assert(range.numerator >= 1);
            }
            assert(range.numerator >= 1 && cfg.muzzle_energy.numerator >= 1);
            assert(wf(state.kinetic_energy));
        }
        let v = state.velocity();
        if v <= Float::zero() {
            proof {
                lemma_cmp_zero(v);
            }
            break;
        }
        proof {
            lemma_cmp_zero(v);
            assert(sim_enabled(cfg, range, sim_run(cfg, range, steps)));
            lemma_wf_div_scalar(spec_bb_diameter(), 2);
        }
        let ghost prev = sim_run(cfg, range, steps);

        // Drag force: Fd = 0.5 * Cd * rho * A * v^2
        let radius = bb_diameter() / 2;  // mm to meters
        proof {
            lemma_wf_mul(spec_pi(), radius);
            lemma_wf_mul(spec_mul(spec_pi(), radius), radius);
        }
        let area = pi() * radius * radius;
        let drag_force = drag_force(v, drag_coefficient(), air_density(), area);

        // Magnus force (simplified): Fm = S * v x w, S = 0.5 * rho * A * r
        let magnus_force = magnus_force(state.velocity(), state.rotation, air_density(), radius);

        // Assume drag acts along -v, Magnus acts perpendicular (in x)
        proof {
            lemma_wf_div(step, v);
        }
        let dt = (step / v).abs();
        let dt_time = dt;

        // Update drift_x (Magnus effect, sideways)
        proof {
            lemma_wf_div(magnus_force, state.mass);
        }
        let accel_x = magnus_force / state.mass;
        proof {
            lemma_wf_mul(accel_x, dt_time);
            lemma_wf_mul(spec_mul(accel_x, dt_time), dt_time);
            lemma_wf_div_scalar(spec_mul(spec_mul(accel_x, dt_time), dt_time), 2);
            lemma_wf_add(drift_x, spec_div_scalar(spec_mul(spec_mul(accel_x, dt_time), dt_time), 2));
            if cfg.magnus_effect_angular_velocity.numerator == 0 {
                lemma_zero_add(spec_div_scalar(spec_mul(spec_mul(accel_x, dt_time), dt_time), 2));
            }
        }
        drift_x = drift_x + (accel_x * dt_time * dt_time) / 2;

        // Update drift_y (gravity, vertical)
        // Negation written as an explicit call: the bare unary operator
        // on the fraction type is not accepted here.
        let accel_y = core::ops::Neg::neg(gravity());
        proof {
            lemma_wf_mul(accel_y, dt_time);
            lemma_wf_mul(spec_mul(accel_y, dt_time), dt_time);
            lemma_wf_div_scalar(spec_mul(spec_mul(accel_y, dt_time), dt_time), 2);
            lemma_wf_add(drift_y, spec_div_scalar(spec_mul(spec_mul(accel_y, dt_time), dt_time), 2));
        }
        drift_y = drift_y + (accel_y * dt_time * dt_time / 2);

        // Update kinetic energy (drag)
        proof {
            lemma_wf_mul(drag_force, step);
        }
        let work_drag = drag_force * step;
        proof {
            lemma_wf_sub(state.kinetic_energy, work_drag);
        }
        let new_ke = (state.kinetic_energy - work_drag).max(Float::zero());
        state.kinetic_energy = new_ke;

        // Advance
        proof {
            lemma_wf_add(state.position, step);
            lemma_wf_add(state.time, dt_time);
            lemma_step_count_bounded(traveled.numerator, range);
            lemma_unit_step_add(traveled.numerator);
            lemma_wf_add(traveled, step);
        }
        state.position = state.position + step;
        state.time = state.time + dt_time;
        traveled = traveled + step;

        proof {
            steps = steps + 1;
            assert(sim_run(cfg, range, steps) == sim_step(cfg, prev));
        }
    }

    proof {
        assert(!sim_enabled(cfg, range, sim_run(cfg, range, steps)) && drift_x == sim_run(
            cfg,
            range,
            steps,
        ).drift_x && drift_y == sim_run(cfg, range, steps).drift_y);
    }
    BBDrift::new(drift_x, drift_y)
}

} // verus!
