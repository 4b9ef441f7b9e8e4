use vec3::Vector3;

const EPS: f32 = 1e-5;

fn v3(x: f32, y: f32, z: f32) -> Vector3 {
    Vector3::new(x.to_bits(), y.to_bits(), z.to_bits())
}

fn comp(bits: u32) -> f32 {
    f32::from_bits(bits)
}

fn samples() -> Vec<Vector3> {
    vec![
        v3(0.0, 0.0, 0.0),
        v3(1.0, 2.0, 3.0),
        v3(-1.5, 0.25, -4.0),
        v3(3.0, 4.0, 0.0),
        v3(1000.5, -2000.25, 0.125),
        v3(-0.0, 7.75, -9.5),
    ]
}

#[test]
fn invert_equals_negate() {
    for v in samples() {
        let a = v.invert();
        let b = v.negate();
        assert_eq!(a.x, b.x);
        assert_eq!(a.y, b.y);
        assert_eq!(a.z, b.z);
    }
}

#[test]
fn invert_flips_each_component() {
    let r = v3(1.0, -2.0, 3.5).invert();
    assert_eq!(comp(r.x), -1.0);
    assert_eq!(comp(r.y), 2.0);
    assert_eq!(comp(r.z), -3.5);
}

#[test]
fn double_invert_is_identity() {
    for v in samples() {
        let r = v.invert().invert();
        assert_eq!(r.x, v.x);
        assert_eq!(r.y, v.y);
        assert_eq!(r.z, v.z);
    }
}

#[test]
fn length_is_nonnegative_for_finite_vectors() {
    for v in samples() {
        assert!(comp(v.length()) >= 0.0);
    }
}

#[test]
fn length_of_zero_vector_is_zero() {
    assert_eq!(comp(v3(0.0, 0.0, 0.0).length()), 0.0);
}

#[test]
fn length_of_pythagorean_triple() {
    let l = comp(v3(3.0, 4.0, 0.0).length());
    assert!((l - 5.0).abs() < EPS);
}

#[test]
fn length_with_nan_component_is_nan() {
    let l = v3(1.0, f32::NAN, 2.0).length();
    assert!(comp(l).is_nan());
}

#[test]
fn length_with_infinite_component_is_positive_infinity() {
    let l = v3(f32::NEG_INFINITY, 2.0, 3.0).length();
    assert_eq!(comp(l), f32::INFINITY);
}

#[test]
fn norm_of_nonzero_vector_has_unit_length() {
    for v in [v3(1.0, 2.0, 3.0), v3(-1.5, 0.25, -4.0), v3(0.0, 0.0, 9.75)] {
        let l = comp(v.norm().length());
        assert!((l - 1.0).abs() < EPS);
    }
}

#[test]
fn norm_of_zero_vector_is_all_nan() {
    let r = v3(0.0, 0.0, 0.0).norm();
    assert!(comp(r.x).is_nan());
    assert!(comp(r.y).is_nan());
    assert!(comp(r.z).is_nan());
}

#[test]
fn vector_addition_is_commutative() {
    let vs = samples();
    for a in &vs {
        for b in &vs {
            let ab = a.add(*b);
            let ba = b.add(*a);
            assert_eq!(ab.x, ba.x);
            assert_eq!(ab.y, ba.y);
            assert_eq!(ab.z, ba.z);
        }
    }
}

#[test]
fn vector_addition_componentwise() {
    let r = v3(1.0, 2.0, 3.0).add(v3(10.0, 20.0, 30.0));
    assert_eq!(comp(r.x), 11.0);
    assert_eq!(comp(r.y), 22.0);
    assert_eq!(comp(r.z), 33.0);
}

#[test]
fn vector_subtraction_componentwise() {
    let r = v3(5.0, 7.0, 9.0).sub(v3(1.0, 2.0, 3.0));
    assert_eq!(comp(r.x), 4.0);
    assert_eq!(comp(r.y), 5.0);
    assert_eq!(comp(r.z), 6.0);
}

#[test]
fn scalar_add_sub_round_trip() {
    let s = 2.75f32.to_bits();
    for v in samples() {
        let r = v.add_scalar(s).sub_scalar(s);
        assert!((comp(r.x) - comp(v.x)).abs() < EPS);
        assert!((comp(r.y) - comp(v.y)).abs() < EPS);
        assert!((comp(r.z) - comp(v.z)).abs() < EPS);
    }
}

#[test]
fn scalar_subtraction_componentwise() {
    let r = v3(5.0, 7.0, 9.0).sub_scalar(1.5f32.to_bits());
    assert_eq!(comp(r.x), 3.5);
    assert_eq!(comp(r.y), 5.5);
    assert_eq!(comp(r.z), 7.5);
}

#[test]
fn mul_by_one_is_identity() {
    let one = 1f32.to_bits();
    for v in samples() {
        let r = v.mul(one);
        assert_eq!(r.x, v.x);
        assert_eq!(r.y, v.y);
        assert_eq!(r.z, v.z);
    }
}

#[test]
fn mul_by_zero_gives_zero_vector() {
    let zero = 0f32.to_bits();
    for v in samples() {
        let r = v.mul(zero);
        assert_eq!(comp(r.x), 0.0);
        assert_eq!(comp(r.y), 0.0);
        assert_eq!(comp(r.z), 0.0);
    }
}

#[test]
fn mul_scales_each_component() {
    let r = v3(1.5, -2.0, 4.0).mul(2f32.to_bits());
    assert_eq!(comp(r.x), 3.0);
    assert_eq!(comp(r.y), -4.0);
    assert_eq!(comp(r.z), 8.0);
}

#[test]
fn div_mul_round_trip() {
    let s = 3.5f32.to_bits();
    for v in samples() {
        let r = v.div(s).mul(s);
        assert!((comp(r.x) - comp(v.x)).abs() < EPS);
        assert!((comp(r.y) - comp(v.y)).abs() < EPS);
        assert!((comp(r.z) - comp(v.z)).abs() < EPS);
    }
}

#[test]
fn div_divides_each_component() {
    let r = v3(6.0, -9.0, 12.0).div(3f32.to_bits());
    assert_eq!(comp(r.x), 2.0);
    assert_eq!(comp(r.y), -3.0);
    assert_eq!(comp(r.z), 4.0);
}

#[test]
fn div_by_zero_follows_ieee_rules() {
    let zero = 0f32.to_bits();
    let r = v3(1.0, -1.0, 0.0).div(zero);
    assert_eq!(comp(r.x), f32::INFINITY);
    assert_eq!(comp(r.y), f32::NEG_INFINITY);
    assert!(comp(r.z).is_nan());
}

#[test]
fn end_to_end_scenario() {
    let shifted = v3(4.0, 5.0, 6.0).add_scalar(3f32.to_bits());
    assert_eq!(comp(shifted.x), 7.0);
    assert_eq!(comp(shifted.y), 8.0);
    assert_eq!(comp(shifted.z), 9.0);

    let l = comp(shifted.length());
    assert!((l - 194.0f32.sqrt()).abs() < EPS);
    assert!((l - 13.9284).abs() < 1e-3);

    let n = shifted.norm();
    assert!((comp(n.x) - 0.5026).abs() < 1e-4);
    assert!((comp(n.y) - 0.5744).abs() < 1e-4);
    assert!((comp(n.z) - 0.6461).abs() < 1e-4);
    assert!((comp(n.length()) - 1.0).abs() < EPS);
}

#[test]
fn operations_propagate_nan() {
    let nan = f32::NAN.to_bits();
    let v = v3(1.0, 2.0, 3.0);
    assert!(comp(v.add_scalar(nan).x).is_nan());
    assert!(comp(v.sub_scalar(nan).y).is_nan());
    assert!(comp(v.mul(nan).z).is_nan());
    assert!(comp(v.div(nan).x).is_nan());
    let w = v.add(v3(f32::NAN, 0.0, 0.0));
    assert!(comp(w.x).is_nan());
    assert!(!comp(w.y).is_nan());
}
