use lamar::vec2::Vec2;
use lamar::vec3::Vec3;
use lamar::vec4::Vec4;

#[test]
fn add_commutes_each_arity() {
    let a2 = Vec2::new(3i64, -7);
    let b2 = Vec2::new(-20i64, 5);
    assert_eq!(a2.add(b2), b2.add(a2));

    let a3 = Vec3::new(3i64, -7, 11);
    let b3 = Vec3::new(-20i64, 5, 2);
    assert_eq!(a3.add(b3), b3.add(a3));

    let a4 = Vec4::new(3i64, -7, 11, 0);
    let b4 = Vec4::new(-20i64, 5, 2, 9);
    assert_eq!(a4.add(b4), b4.add(a4));
}

#[test]
fn add_associates_each_arity() {
    let a2 = Vec2::new(1i64, 2);
    let b2 = Vec2::new(30i64, -40);
    let c2 = Vec2::new(-500i64, 600);
    assert_eq!(a2.add(b2).add(c2), a2.add(b2.add(c2)));

    let a3 = Vec3::new(1i64, 2, 3);
    let b3 = Vec3::new(30i64, -40, 50);
    let c3 = Vec3::new(-500i64, 600, -700);
    assert_eq!(a3.add(b3).add(c3), a3.add(b3.add(c3)));

    let a4 = Vec4::new(1i64, 2, 3, 4);
    let b4 = Vec4::new(30i64, -40, 50, -60);
    let c4 = Vec4::new(-500i64, 600, -700, 800);
    assert_eq!(a4.add(b4).add(c4), a4.add(b4.add(c4)));
}

#[test]
fn add_zero_is_identity() {
    let a2 = Vec2::new(17i64, -4);
    assert_eq!(a2.add(Vec2::zero()), a2);

    let a4 = Vec4::new(17i64, -4, 9, 100);
    assert_eq!(a4.add(Vec4::zero()), a4);
}

#[test]
fn sub_self_is_zero() {
    let a2 = Vec2::new(17i64, -4);
    assert_eq!(a2.sub(a2), Vec2::zero());

    let a4 = Vec4::new(17i64, -4, 9, 100);
    assert_eq!(a4.sub(a4), Vec4::zero());
}

#[test]
fn dot_commutes_each_arity() {
    let a2 = Vec2::new(3i64, -7);
    let b2 = Vec2::new(-20i64, 5);
    assert_eq!(a2.dot(&b2), b2.dot(&a2));

    let a3 = Vec3::new(3i64, -7, 11);
    let b3 = Vec3::new(-20i64, 5, 2);
    assert_eq!(a3.dot(&b3), b3.dot(&a3));

    let a4 = Vec4::new(3i64, -7, 11, 0);
    let b4 = Vec4::new(-20i64, 5, 2, 9);
    assert_eq!(a4.dot(&b4), b4.dot(&a4));
}

#[test]
fn cross_anti_commutes() {
    let a = Vec3::new(5i64, 10, 15);
    let b = Vec3::new(3i64, 1, 7);
    assert_eq!(a.cross(&b), Vec3::new(55, 10, -25));
    assert_eq!(b.cross(&a), Vec3::new(-55, -10, 25));
}

#[test]
fn cross_with_self_is_zero_vector() {
    let a = Vec3::new(5i64, -10, 15);
    assert_eq!(a.cross(&a), Vec3::new(0, 0, 0));
}

#[test]
fn scale_then_divide_round_trips() {
    let s: i64 = 10;
    let a2 = Vec2::new(32i64, -64);
    assert_eq!(a2.mul_scalar(s).div_scalar(s), a2);

    let a3 = Vec3::new(32i64, -64, 7);
    assert_eq!(a3.mul_scalar(s).div_scalar(s), a3);

    let a4 = Vec4::new(32i64, -64, 7, 0);
    assert_eq!(a4.mul_scalar(s).div_scalar(s), a4);

    let neg: i64 = -3;
    assert_eq!(a3.mul_scalar(neg).div_scalar(neg), a3);
}
