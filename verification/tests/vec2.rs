use lamar::vec2::Vec2;

#[test]
fn zero_vec2_test() {
    assert_eq!(Vec2::<i64>::zero(), Vec2::new(0, 0));
}

#[test]
fn vec2_dot_product_test() {
    let lhs = Vec2::new(32i64, 64);
    let rhs = Vec2::new(12i64, 10);

    assert_eq!(lhs.dot(&rhs), 1024);
}

#[test]
fn vec2_cross_product_test() {
    let lhs = Vec2::new(32i64, 64);
    let rhs = Vec2::new(12i64, 10);

    assert_eq!(lhs.cross(&rhs), -448);
}

#[test]
fn vec2_cross_product_mul_trait_test() {
    let lhs = Vec2::new(32i64, 64);
    let rhs = Vec2::new(12i64, 10);

    assert_eq!(lhs.mul(rhs), -448);
}

#[test]
fn vec2_add_test() {
    let lhs = Vec2::new(32i64, 64);
    let rhs = Vec2::new(12i64, 10);

    assert_eq!(lhs.add(rhs), Vec2::new(44, 74));
}

#[test]
fn vec2_sub_test() {
    let lhs = Vec2::new(32i64, 64);
    let rhs = Vec2::new(12i64, 10);

    assert_eq!(lhs.sub(rhs), Vec2::new(20, 54));
}

#[test]
fn vec2_add_scalar_test() {
    let lhs = Vec2::new(32i64, 64);
    let rhs: i64 = 10;

    assert_eq!(lhs.add_scalar(rhs), Vec2::new(42, 74));
}

#[test]
fn vec2_sub_scalar_test() {
    let lhs = Vec2::new(32i64, 64);
    let rhs: i64 = 10;

    assert_eq!(lhs.sub_scalar(rhs), Vec2::new(22, 54));
}

#[test]
fn vec2_mul_scalar_test() {
    let lhs = Vec2::new(32i64, 64);
    let rhs: i64 = 10;

    assert_eq!(lhs.mul_scalar(rhs), Vec2::new(320, 640));
}

#[test]
fn vec2_div_scalar_test() {
    let lhs = Vec2::new(32i64, 64);
    let rhs: i64 = 4;

    assert_eq!(lhs.div_scalar(rhs), Vec2::new(8, 16));
}
