use lamar::vec2::Vec2;
use lamar::vec3::Vec3;
use lamar::vec4::Vec4;

#[test]
fn vec2_display_names_each_field() {
    let v = Vec2::new(1i64, 2);
    assert_eq!(v.to_display_string(), "x: 1\ny: 2");
}

#[test]
fn vec3_display_names_each_field() {
    let v = Vec3::new(10i64, 200, 3000);
    assert_eq!(v.to_display_string(), "x: 10\ny: 200\nz: 3000");
}

#[test]
fn vec4_display_names_each_field() {
    let v = Vec4::new(0i64, 7, 42, 9001);
    assert_eq!(v.to_display_string(), "x: 0\ny: 7\nz: 42\nw: 9001");
}

#[test]
fn display_negative_components() {
    let v = Vec2::new(-45i64, 0);
    assert_eq!(v.to_display_string(), "x: -45\ny: 0");
}

#[test]
fn display_extreme_components() {
    let v = Vec2::new(i64::MIN, i64::MAX);
    assert_eq!(
        v.to_display_string(),
        "x: -9223372036854775808\ny: 9223372036854775807"
    );
}

#[test]
fn unsigned_elements_work_too() {
    let a = Vec2::new(32u64, 64);
    let b = Vec2::new(12u64, 10);
    assert_eq!(a.dot(&b), 1024);
    assert_eq!(a.add(b), Vec2::new(44, 74));
    assert_eq!(a.to_display_string(), "x: 32\ny: 64");
    assert_eq!(Vec2::new(u64::MAX, 0).to_display_string(), "x: 18446744073709551615\ny: 0");
}

#[test]
fn division_truncates_toward_zero() {
    let v = Vec2::new(-7i64, 7);
    assert_eq!(v.div_scalar(2), Vec2::new(-3, 3));

    let w = Vec3::new(7i64, -7, 8);
    assert_eq!(w.div_scalar(-2), Vec3::new(-3, 3, -4));

    let q = Vec4::new(-9i64, 9, -10, 10);
    assert_eq!(q.div_scalar(3), Vec4::new(-3, 3, -3, 3));
}
