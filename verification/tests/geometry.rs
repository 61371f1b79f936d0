use raytrace::geometry::discriminant_negative;

#[test]
fn wide_miss_has_negative_discriminant() {
    // Ray from (0,0,10) straight up past a unit sphere at the origin:
    // a = 1, b = dot(dir, orig) = 0, c = 100 - 1 = 99. Closest approach 10 > 1.
    assert!(discriminant_negative(1, 0, 99));
}

#[test]
fn head_on_ray_has_roots() {
    // Ray from (0,0,10) toward (0,0,-1) at a unit sphere at the origin:
    // a = 1, b = -10, c = 99; discriminant 100 - 99 = 1 >= 0, so roots exist,
    // and the near root t = 10 - r = 9 solves the quadratic exactly.
    let (a, b, c): (i64, i64, i64) = (1, -10, 99);
    assert!(!discriminant_negative(a, b, c));
    let t: i64 = 9;
    assert_eq!(a * t * t + 2 * b * t + c, 0);
}

#[test]
fn ray_from_inside_always_hits() {
    // Origin at the sphere center: c = -r^2 < 0, so b*b - a*c > 0.
    assert!(!discriminant_negative(1, 0, -1));
}

#[test]
fn tangent_ray_is_not_a_miss() {
    // Grazing contact: discriminant exactly zero is still a potential hit.
    // a = 1, b = 0, c = 0: the ray touches the sphere at one point.
    assert!(!discriminant_negative(1, 0, 0));
}

#[test]
fn extreme_coefficients_do_not_overflow() {
    assert!(!discriminant_negative(i64::MAX, i64::MIN, i64::MAX));
    let bb = (i64::MIN as i128) * (i64::MIN as i128);
    let ac = (i64::MAX as i128) * (i64::MAX as i128);
    assert_eq!(discriminant_negative(i64::MAX, i64::MIN, i64::MAX), bb < ac);
    assert!(discriminant_negative(i64::MAX, 0, 1));
    assert!(!discriminant_negative(-1, 0, 1));
}
