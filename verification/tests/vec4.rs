use lamar::vec4::Vec4;

#[test]
fn zero_vec3_test() {
    assert_eq!(Vec4::<i64>::zero(), Vec4::new(0, 0, 0, 0));
}

#[test]
fn vec4_dot_product_test() {
    let lhs = Vec4::new(2i64, 4, 8, 10);
    let rhs = Vec4::new(16i64, 32, 64, 100);

    assert_eq!(lhs.dot(&rhs), 1672);
}

#[test]
fn vec4_add_test() {
    let lhs = Vec4::new(2i64, 4, 8, 10);
    let rhs = Vec4::new(16i64, 32, 64, 100);

    assert_eq!(lhs.add(rhs), Vec4::new(18, 36, 72, 110));
}

#[test]
fn vec4_sub_test() {
    let lhs = Vec4::new(2i64, 4, 8, 10);
    let rhs = Vec4::new(16i64, 32, 64, 100);

    assert_eq!(lhs.sub(rhs), Vec4::new(-14, -28, -56, -90));
}

#[test]
fn vec4_add_scalar_test() {
    let lhs = Vec4::new(32i64, 64, 128, 10);
    let rhs: i64 = 10;

    assert_eq!(lhs.add_scalar(rhs), Vec4::new(42, 74, 138, 20));
}

#[test]
fn vec4_sub_scalar_test() {
    let lhs = Vec4::new(32i64, 64, 128, 10);
    let rhs: i64 = 10;

    assert_eq!(lhs.sub_scalar(rhs), Vec4::new(22, 54, 118, 0));
}

#[test]
fn vec4_mul_scalar_test() {
    let lhs = Vec4::new(32i64, 64, 128, 10);
    let rhs: i64 = 10;

    assert_eq!(lhs.mul_scalar(rhs), Vec4::new(320, 640, 1280, 100));
}

#[test]
fn vec4_div_scalar_test() {
    let lhs = Vec4::new(32i64, 64, 128, 12);
    let rhs: i64 = 4;

    assert_eq!(lhs.div_scalar(rhs), Vec4::new(8, 16, 32, 3));
}
