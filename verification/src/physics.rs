//! Pure physical formulas over the fraction domain: velocity from
//! kinetic energy, aerodynamic drag, and a simplified Magnus force whose
//! lift coefficient and cross-sectional area are folded into the cubic
//! radius term.

use crate::arith::sat32;
use crate::fraction::{
    lemma_normalized_wf, lemma_wf_div, lemma_wf_mul, lemma_wf_sqrt, raw_mul, spec_div, spec_gt,
    spec_mul, spec_normalized, spec_sqrt, wf, Fraction,
};
use vstd::prelude::*;

verus! {

/// What the velocity computation returns:
/// `sqrt(2 * energy / mass)`, in the fraction domain.
pub open spec fn spec_velocity_from_kinetic_energy(energy: Fraction, mass: Fraction) -> Fraction {
    spec_sqrt(spec_div(spec_mul(Fraction { numerator: 2, denominator: 1 }, energy), mass))
}

/// What the drag computation returns:
/// `1/2 * dragCoefficient * airDensity * area * velocity^2`.
pub open spec fn spec_drag_force(
    velocity: Fraction,
    drag_coefficient: Fraction,
    air_density: Fraction,
    area: Fraction,
) -> Fraction {
    spec_mul(
        spec_mul(
            spec_mul(spec_mul(Fraction { numerator: 1, denominator: 2 }, drag_coefficient),
                air_density),
            area,
        ),
        spec_mul(velocity, velocity),
    )
}

/// What the simplified Magnus computation returns:
/// `1/2 * airDensity * radius^3 * velocity * angularVelocity`.
pub open spec fn spec_magnus_force(
    velocity: Fraction,
    angular_velocity: Fraction,
    air_density: Fraction,
    radius: Fraction,
) -> Fraction {
    spec_mul(
        spec_mul(
            spec_mul(
                spec_mul(Fraction { numerator: 1, denominator: 2 }, air_density),
                spec_mul(spec_mul(radius, radius), radius),
            ),
            velocity,
        ),
        angular_velocity,
    )
}

/// Instantaneous velocity of a projectile of the given mass carrying the
/// given kinetic energy.
pub fn velocity_from_kinetic_energy(energy: Fraction, mass: Fraction) -> (r: Fraction)
    requires
        wf(energy),
        wf(mass),
        mass.numerator >= 1,
    ensures
        r == spec_velocity_from_kinetic_energy(energy, mass),
        wf(r),
{
    proof {
        let two = Fraction { numerator: 2, denominator: 1 };
        lemma_wf_mul(two, energy);
        lemma_wf_div(spec_mul(two, energy), mass);
        lemma_wf_sqrt(spec_div(spec_mul(two, energy), mass));
    }
    let velocity_mps = (Fraction::from(2) * energy / mass).sqrt();
    velocity_mps
}

/// Aerodynamic drag on a projectile at the given velocity.
pub fn drag_force(
    velocity: Fraction,
    drag_coefficient: Fraction,
    air_density: Fraction,
    area: Fraction,
) -> (r: Fraction)
    requires
        wf(velocity),
        wf(drag_coefficient),
        wf(air_density),
        wf(area),
    ensures
        r == spec_drag_force(velocity, drag_coefficient, air_density, area),
        wf(r),
{
    proof {
        let h = Fraction { numerator: 1, denominator: 2 };
        lemma_wf_mul(velocity, velocity);
        lemma_wf_mul(h, drag_coefficient);
        lemma_wf_mul(spec_mul(h, drag_coefficient), air_density);
        lemma_wf_mul(spec_mul(spec_mul(h, drag_coefficient), air_density), area);
        lemma_wf_mul(
            spec_mul(spec_mul(spec_mul(h, drag_coefficient), air_density), area),
            spec_mul(velocity, velocity),
        );
    }
    // Drag force formula: Fd = 0.5 * Cd * rho * A * v^2
    let v_squared = velocity * velocity;

    Fraction::new(1, 2) * drag_coefficient * air_density * area * v_squared
}

/// Simplified Magnus force on a spinning projectile.  A zero spin yields
/// a force with zero numerator: no lateral deflection at all.
pub fn magnus_force(
    velocity: Fraction,
    angular_velocity: Fraction,
    air_density: Fraction,
    radius: Fraction,
) -> (r: Fraction)
    requires
        wf(velocity),
        wf(angular_velocity),
        wf(air_density),
        wf(radius),
    ensures
        r == spec_magnus_force(velocity, angular_velocity, air_density, radius),
        wf(r),
        angular_velocity.numerator == 0 ==> r.numerator == 0,
{
    proof {
        let h = Fraction { numerator: 1, denominator: 2 };
        lemma_wf_mul(radius, radius);
        lemma_wf_mul(spec_mul(radius, radius), radius);
        lemma_wf_mul(h, air_density);
        lemma_wf_mul(spec_mul(h, air_density), spec_mul(spec_mul(radius, radius), radius));
        lemma_wf_mul(
            spec_mul(spec_mul(h, air_density), spec_mul(spec_mul(radius, radius), radius)),
            velocity,
        );
        lemma_wf_mul(
            spec_mul(
                spec_mul(spec_mul(h, air_density), spec_mul(spec_mul(radius, radius), radius)),
                velocity,
            ),
            angular_velocity,
        );
    }
    Fraction::new(1, 2) * air_density * (radius * radius * radius) * velocity * angular_velocity
}

/// Clamping preserves order.
proof fn lemma_sat32_monotone(x: int, y: int)
    requires
        x <= y,
    ensures
        sat32(x) <= sat32(y),
{
}

/// The Magnus force does not shrink when the configured spin grows:
/// for two spins over a common denominator, with every physical input
/// non-negative, the force at the faster spin compares at least as large
/// under the fraction ordering.
///
/// This is the linear scaling of the Magnus force with spin.  It is
/// stated for spins over one common denominator: with differing
/// denominators the independent saturation of the cross products can
/// reverse the comparison by a sliver near the domain boundary.
pub proof fn lemma_magnus_monotone_in_spin(
    velocity: Fraction,
    air_density: Fraction,
    radius: Fraction,
    slow: Fraction,
    fast: Fraction,
)
    requires
        wf(velocity),
        velocity.numerator >= 0,
        wf(air_density),
        air_density.numerator >= 0,
        wf(radius),
        radius.numerator >= 0,
        wf(slow),
        wf(fast),
        slow.denominator == fast.denominator,
        0 <= slow.numerator <= fast.numerator,
    ensures
        !spec_gt(
            spec_magnus_force(velocity, slow, air_density, radius),
            spec_magnus_force(velocity, fast, air_density, radius),
        ),
{
    let h = Fraction { numerator: 1, denominator: 2 };
    let r3 = spec_mul(spec_mul(radius, radius), radius);
    lemma_wf_mul(radius, radius);
    lemma_wf_mul(spec_mul(radius, radius), radius);
    lemma_wf_mul(h, air_density);
    lemma_wf_mul(spec_mul(h, air_density), r3);
    lemma_wf_mul(spec_mul(spec_mul(h, air_density), r3), velocity);
    let base = spec_mul(spec_mul(spec_mul(h, air_density), r3), velocity);
    let bn = base.numerator as int;
    let bd = base.denominator as int;
    let d = slow.denominator as int;
    let n1 = slow.numerator as int;
    let n2 = fast.numerator as int;
    assert(bn >= 0 && bd >= 1 && d >= 1);
    assert(bn * n1 <= bn * n2 && 0 <= bn * n1 && bd * d >= 1) by (nonlinear_arith)
        requires
            bn >= 0,
            bd >= 1,
            d >= 1,
            0 <= n1 <= n2,
    ;
    lemma_sat32_monotone(bn * n1, bn * n2);
    let cap_1 = sat32(bn * n1);
    let cap_2 = sat32(bn * n2);
    let cap_d = sat32(bd * d);
    let raw_1 = raw_mul(base, slow);
    let raw_2 = raw_mul(base, fast);
    lemma_normalized_wf(raw_1);
    lemma_normalized_wf(raw_2);
    let m_1 = spec_normalized(raw_1);
    let m_2 = spec_normalized(raw_2);
    assert(m_1.numerator as int * cap_d == cap_1 * m_1.denominator as int);
    assert(m_2.numerator as int * cap_d == cap_2 * m_2.denominator as int);
    assert(m_1.numerator as int * m_2.denominator as int <= m_2.numerator as int
        * m_1.denominator as int) by (nonlinear_arith)
        requires
            m_1.numerator as int * cap_d == cap_1 * m_1.denominator as int,
            m_2.numerator as int * cap_d == cap_2 * m_2.denominator as int,
            0 <= cap_1 <= cap_2,
            m_1.denominator >= 1,
            m_2.denominator >= 1,
            cap_d >= 1,
    ;
    lemma_sat32_monotone(
        m_1.numerator as int * m_2.denominator as int,
        m_2.numerator as int * m_1.denominator as int,
    );
}

} // verus!
