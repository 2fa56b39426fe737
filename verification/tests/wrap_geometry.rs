use rusteroids::util::{
    reduce_rotation, rem_trunc_i64, div_trunc_i64, wrap_coord_i64, wrap_position, wrap_offsets,
    rotate_vec, Rotor, Vec2,
};
use rusteroids::{SCALE, TAU};

#[test]
fn wrap_leaves_canonical_position_unchanged() {
    // A position already inside [0, w) x [0, h) comes back as it is.
    let p = wrap_position(Vec2 { x: 123_000, y: 42_000 }, 200_000, 150_000);
    assert_eq!(p, Vec2 { x: 123_000, y: 42_000 });
    assert_eq!(wrap_coord_i64(0, 5), 0);
    assert_eq!(wrap_coord_i64(4, 5), 4);
}

#[test]
fn wrap_canonicalizes_out_of_range_positions() {
    // World of 200 x 150 pixels, in fixed-point units.
    let w = 200 * SCALE;
    let h = 150 * SCALE;
    // (-5, 160) wraps to (195, 10).
    let p = wrap_position(Vec2 { x: -5 * SCALE, y: 160 * SCALE }, w, h);
    assert_eq!(p, Vec2 { x: 195 * SCALE, y: 10 * SCALE });
    // (205, -1) wraps to (5, 149).
    let q = wrap_position(Vec2 { x: 205 * SCALE, y: -1 * SCALE }, w, h);
    assert_eq!(q, Vec2 { x: 5 * SCALE, y: 149 * SCALE });
}

#[test]
fn rotation_reduction_preserves_sign() {
    // -0.01 rad stays -0.01 rad: no normalization into [0, 2 pi).
    assert_eq!(reduce_rotation(-10), -10);
    // Exactly one full turn, of either sign, reduces to zero.
    assert_eq!(reduce_rotation(TAU), 0);
    assert_eq!(reduce_rotation(-TAU), 0);
    // Slightly past a full turn wraps around, keeping the sign.
    assert_eq!(reduce_rotation(TAU + 1), 1);
    assert_eq!(reduce_rotation(-TAU - 1), -1);
}

#[test]
fn truncated_remainder_and_quotient() {
    assert_eq!(rem_trunc_i64(7, 3), 1);
    assert_eq!(rem_trunc_i64(-7, 3), -1);
    assert_eq!(div_trunc_i64(7, 2), 3);
    assert_eq!(div_trunc_i64(-7, 2), -3);
}

#[test]
fn wrap_offsets_are_exactly_nine_in_fixed_order() {
    let offs = wrap_offsets(200, 100);
    let expected = vec![
        Vec2 { x: 0, y: 0 },
        Vec2 { x: -200, y: 0 },
        Vec2 { x: 200, y: 0 },
        Vec2 { x: 0, y: -100 },
        Vec2 { x: 0, y: 100 },
        Vec2 { x: -200, y: -100 },
        Vec2 { x: 200, y: -100 },
        Vec2 { x: -200, y: 100 },
        Vec2 { x: 200, y: 100 },
    ];
    assert_eq!(offs.len(), 9);
    assert_eq!(offs, expected);
    // All nine are distinct for a positive world size.
    for i in 0..9 {
        for j in (i + 1)..9 {
            assert_ne!(offs[i], offs[j]);
        }
    }
}

#[test]
fn rotate_by_zero_is_identity() {
    let v = rotate_vec(Vec2 { x: 400, y: 400 }, Rotor { cos: SCALE, sin: 0 });
    assert_eq!(v, Vec2 { x: 400, y: 400 });
}

#[test]
fn rotate_by_quarter_turn() {
    // cos = 0, sin = 1: (x, y) goes to (-y, x).
    let v = rotate_vec(Vec2 { x: 400, y: 100 }, Rotor { cos: 0, sin: SCALE });
    assert_eq!(v, Vec2 { x: -100, y: 400 });
}

#[test]
fn rotate_matches_float_trigonometry() {
    // A rotor built the way the host builds one, from the angle's real
    // sine and cosine.
    let angle_fp: i64 = 1_000; // one radian
    let a = angle_fp as f64 / SCALE as f64;
    let rotor = Rotor {
        cos: (a.cos() * SCALE as f64).round() as i64,
        sin: (a.sin() * SCALE as f64).round() as i64,
    };
    let v = rotate_vec(Vec2 { x: 0, y: -100_000 }, rotor);
    // Expected: (100000 * sin a, -100000 * cos a), within fixed-point error.
    let ex = (100_000.0 * a.sin()) as i64;
    let ey = (-100_000.0 * a.cos()) as i64;
    assert!((v.x - ex).abs() <= 150, "x: {} vs {}", v.x, ex);
    assert!((v.y - ey).abs() <= 150, "y: {} vs {}", v.y, ey);
}
