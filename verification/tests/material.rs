use raytrace::material::{dielectric_choice, GlassBranch};

#[test]
fn total_internal_reflection_ignores_the_draw() {
    // When refraction is impossible the surface reflects whatever the
    // Schlick coin flip would have said.
    assert_eq!(dielectric_choice(true, false), GlassBranch::Reflect);
    assert_eq!(dielectric_choice(true, true), GlassBranch::Reflect);
}

#[test]
fn reflectance_draw_decides_otherwise() {
    assert_eq!(dielectric_choice(false, true), GlassBranch::Reflect);
    assert_eq!(dielectric_choice(false, false), GlassBranch::Refract);
}
