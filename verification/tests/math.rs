use obscura_webgl::math::{clampi, ivec3, Color, IVec3};

#[test]
fn test_clampi() {
    assert_eq!(clampi(-5, 0, 10), 0);
    assert_eq!(clampi(5, 0, 10), 5);
    assert_eq!(clampi(15, 0, 10), 10);
}

#[test]
fn clampi_prefers_min_when_bounds_cross() {
    assert_eq!(clampi(5, 10, 0), 10);
    assert_eq!(clampi(-1, 10, 0), 10);
    assert_eq!(clampi(i32::MIN, i32::MIN, i32::MAX), i32::MIN);
}

#[test]
fn vector_and_colour_constructors() {
    assert_eq!(ivec3(1, -2, 3), IVec3::new(1, -2, 3));
    assert_eq!(ivec3(1, -2, 3).y, -2);
    let c = Color::new(1, 2, 3, 4);
    assert_eq!((c.r, c.g, c.b, c.a), (1, 2, 3, 4));
}
