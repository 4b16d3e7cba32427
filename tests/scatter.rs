use rays::double::Double;
use rays::scatter::cap_cosine;
use rays::scatter::clamp_fuzz;
use rays::scatter::glass_reflects;
use rays::scatter::near_zero;
use rays::scatter::reflection_leaves;
use rays::scatter::NEAR_ZERO_BITS;
use rays::scatter::flip_into_hemisphere;

fn d(x: f64) -> Double {
    Double::from_bits(x.to_bits())
}

fn f(x: Double) -> f64 {
    f64::from_bits(x.bits)
}

#[test]
fn near_zero_limit_is_1e_8() {
    assert_eq!(NEAR_ZERO_BITS, 1e-8f64.to_bits());
}

#[test]
fn near_zero_needs_every_component_small() {
    assert!(near_zero(d(0.0), d(-0.0), d(9e-9)));
    assert!(near_zero(d(-9.9e-9), d(1e-20), d(0.0)));
    assert!(!near_zero(d(1e-8), d(0.0), d(0.0)));
    assert!(!near_zero(d(0.0), d(-1e-8), d(0.0)));
    assert!(!near_zero(d(0.0), d(0.0), d(0.5)));
    assert!(!near_zero(d(f64::NAN), d(0.0), d(0.0)));
}

#[test]
fn metal_keeps_only_outgoing_reflections() {
    assert!(reflection_leaves(d(0.3)));
    assert!(reflection_leaves(d(1e-300)));
    assert!(!reflection_leaves(d(0.0)));
    assert!(!reflection_leaves(d(-0.0)));
    assert!(!reflection_leaves(d(-0.2)));
    assert!(!reflection_leaves(d(f64::NAN)));
}

#[test]
fn fuzz_is_clamped_to_unit_interval() {
    assert_eq!(f(clamp_fuzz(d(-0.5))), 0.0);
    assert_eq!(f(clamp_fuzz(d(1.5))), 1.0);
    assert_eq!(f(clamp_fuzz(d(0.25))), 0.25);
    assert_eq!(f(clamp_fuzz(d(0.0))), 0.0);
    assert_eq!(f(clamp_fuzz(d(1.0))), 1.0);
    for x in [-3.0, -0.0, 0.0, 0.3, 0.999, 1.0, 7.0, f64::INFINITY, -f64::INFINITY] {
        assert_eq!(clamp_fuzz(d(x)).bits, x.clamp(0.0, 1.0).to_bits());
    }
    assert!(f(clamp_fuzz(d(f64::NAN))).is_nan());
}

#[test]
fn cosine_is_capped_at_one() {
    assert_eq!(f(cap_cosine(d(1.0000001))), 1.0);
    assert_eq!(f(cap_cosine(d(0.5))), 0.5);
    assert_eq!(f(cap_cosine(d(-0.75))), -0.75);
    assert_eq!(f(cap_cosine(d(f64::NAN))), 1.0);
    for x in [-2.0, 0.0, 0.3, 1.0, 3.0] {
        assert_eq!(f(cap_cosine(d(x))), x.min(1.0));
    }
}

#[test]
fn glass_reflects_under_total_internal_reflection() {
    assert!(glass_reflects(d(1.2), d(0.0), d(0.9)));
    assert!(!glass_reflects(d(1.0), d(0.04), d(0.5)));
}

#[test]
fn glass_reflects_when_draw_is_below_reflectance() {
    assert!(glass_reflects(d(0.5), d(0.3), d(0.1)));
    assert!(!glass_reflects(d(0.5), d(0.3), d(0.3)));
    assert!(!glass_reflects(d(0.5), d(0.3), d(0.7)));
}

#[test]
fn samples_behind_the_normal_are_flipped() {
    assert!(flip_into_hemisphere(d(-0.25)));
    assert!(!flip_into_hemisphere(d(0.25)));
    assert!(!flip_into_hemisphere(d(0.0)));
}
