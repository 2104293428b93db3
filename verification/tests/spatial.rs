use lowrez_survival::fixed::{cos_milli, div_toward_zero, isqrt, saturate};
use lowrez_survival::spatial::{col, dist, get_dir_, unit_vector, Heading, Position};

#[test]
fn collision_is_symmetric_on_samples() {
    let points = [
        Position { x: 0, y: 0 },
        Position { x: 3000, y: 4000 },
        Position { x: -2500, y: 7000 },
        Position { x: i32::MAX, y: i32::MIN },
    ];
    for a in points {
        for b in points {
            for r in [0, 1, 4999, 5000, 5001, 8000, i32::MAX, -3] {
                assert_eq!(col(a, b, r), col(b, a, r));
            }
        }
    }
}

#[test]
fn collision_uses_the_euclidean_distance() {
    let a = Position { x: 0, y: 0 };
    let b = Position { x: 3000, y: 4000 };
    assert!(col(a, b, 5001));
    assert!(!col(a, b, 5000));
    let c = Position { x: 1, y: 999 };
    assert!(col(a, c, 1000));
    // the squares of both offsets count: 800 and 800 lie 1131 apart
    let d = Position { x: 800, y: 800 };
    assert!(!col(a, d, 1000));
}

#[test]
fn collision_needs_a_positive_radius() {
    let a = Position { x: 5, y: 5 };
    assert!(!col(a, a, 0));
    assert!(!col(a, a, -1));
    assert!(col(a, a, 1));
}

#[test]
fn capped_distance_is_euclidean_below_the_cap() {
    let a = Position { x: 0, y: 0 };
    let b = Position { x: 3000, y: 4000 };
    assert_eq!(dist(a, b, 10000), 5000);
    assert_eq!(dist(b, a, 10000), 5000);
}

#[test]
fn capped_distance_is_the_cap_from_the_cap_on() {
    let a = Position { x: 0, y: 0 };
    let b = Position { x: 3000, y: 4000 };
    assert_eq!(dist(a, b, 5000), 5000);
    assert_eq!(dist(a, b, 4000), 4000);
    assert_eq!(dist(a, b, 0), 0);
}

#[test]
fn capped_distance_rounds_down() {
    let a = Position { x: 0, y: 0 };
    let b = Position { x: 1000, y: 1000 };
    assert_eq!(dist(a, b, 128000), 1414);
}

#[test]
fn heading_of_equal_points_is_angle_zero() {
    let a = Position { x: 7, y: 7 };
    assert_eq!(get_dir_(a, a), Heading { sin: 0, cos: 1000 });
}

#[test]
fn heading_pairs_sine_with_the_horizontal_offset() {
    let a = Position { x: 0, y: 0 };
    assert_eq!(get_dir_(a, Position { x: 4000, y: 0 }), Heading { sin: 1000, cos: 0 });
    assert_eq!(get_dir_(a, Position { x: 0, y: 4000 }), Heading { sin: 0, cos: 1000 });
    assert_eq!(get_dir_(a, Position { x: -3000, y: -4000 }), Heading { sin: -600, cos: -800 });
}

#[test]
fn unit_vector_has_length_one_thousand() {
    let a = Position { x: 0, y: 0 };
    assert_eq!(unit_vector(a, Position { x: 3000, y: 4000 }), (600, 800));
    assert_eq!(unit_vector(a, Position { x: 1000, y: 1000 }), (707, 707));
    assert_eq!(unit_vector(a, a), (0, 0));
    assert_eq!(
        unit_vector(Position { x: i32::MIN, y: 0 }, Position { x: i32::MAX, y: 0 }),
        (1000, 0)
    );
}

#[test]
fn integer_square_root_is_exact_on_squares_and_rounds_down() {
    assert_eq!(isqrt(0), 0);
    assert_eq!(isqrt(1), 1);
    assert_eq!(isqrt(24), 4);
    assert_eq!(isqrt(25), 5);
    assert_eq!(isqrt(26), 5);
    assert_eq!(isqrt(u128::MAX), u64::MAX);
}

#[test]
fn division_rounds_toward_zero() {
    assert_eq!(div_toward_zero(7, 2), 3);
    assert_eq!(div_toward_zero(-7, 2), -3);
    assert_eq!(div_toward_zero(0, 5), 0);
}

#[test]
fn saturation_holds_values_in_range() {
    assert_eq!(saturate(5), 5);
    assert_eq!(saturate(i128::MAX), i32::MAX);
    assert_eq!(saturate(i128::MIN), i32::MIN);
}

#[test]
fn cosine_follows_the_rational_formula() {
    assert_eq!(cos_milli(0), 1000);
    assert_eq!(cos_milli(1047), 500);
    assert_eq!(cos_milli(-1047), 500);
    assert_eq!(cos_milli(1570), 0);
    assert_eq!(cos_milli(3141), -1000);
    assert_eq!(cos_milli(6283), 1000);
    assert_eq!(cos_milli(6283 + 1047), 500);
    // a full turn counts 6283, so this angle folds back to 3141 - 1046
    assert_eq!(cos_milli(3141 + 1047), -501);
}
