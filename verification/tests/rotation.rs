use ptouch::rotation::effectively_unrotated;

/// The definition in floating point arithmetic.
fn by_definition(rotation: f32) -> bool {
    let normalized = rotation.rem_euclid(360.0);
    normalized < 0.5 || (360.0 - normalized) < 0.5
}

fn agrees(rotation: f32) {
    assert_eq!(
        effectively_unrotated(rotation.to_bits()),
        by_definition(rotation),
        "at {rotation}"
    );
}

#[test]
fn whole_turns_are_no_rotation() {
    for angle in [0.0f32, -0.0, 360.0, -360.0, 720.0, 3600.0, 0.25, -0.25, 359.75, -359.75] {
        assert!(effectively_unrotated(angle.to_bits()));
    }
    for angle in [0.5f32, -0.5, 1.0, 90.0, -90.0, 180.0, 359.5, 359.0, -359.5] {
        assert!(!effectively_unrotated(angle.to_bits()));
    }
}

#[test]
fn infinities_have_no_angle() {
    for angle in [f32::INFINITY, f32::NEG_INFINITY, f32::NAN] {
        assert!(!effectively_unrotated(angle.to_bits()));
    }
}

#[test]
fn the_limit_of_negative_angles_is_rounded() {
    let limit = 0.5f32.to_bits();
    for step in 0..2000 {
        agrees(f32::from_bits(limit - 1000 + step));
        agrees(-f32::from_bits(limit - 1000 + step));
    }
}

#[test]
fn angles_near_every_limit_agree_with_the_definition() {
    for turns in -40..40 {
        let whole = 360.0 * turns as f32;
        for limit in [whole, whole + 0.5, whole - 0.5] {
            for step in 0..200u32 {
                agrees(f32::from_bits(limit.to_bits().wrapping_add(step).wrapping_sub(100)));
            }
        }
    }
}

#[test]
fn angles_of_every_size_agree_with_the_definition() {
    let mut bits = 1u32;
    for _ in 0..200_000 {
        bits = bits.wrapping_mul(1_664_525).wrapping_add(1_013_904_223);
        agrees(f32::from_bits(bits));
    }
    for exponent in 0..256u32 {
        for fraction in [0u32, 1, 0x3f_ffff, 0x40_0000, 0x7f_ffff] {
            agrees(f32::from_bits(exponent << 23 | fraction));
            agrees(f32::from_bits(1 << 31 | exponent << 23 | fraction));
        }
    }
}
