use lamar::vec3::Vec3;

#[test]
fn vec3_dot_product_test() {
    let lhs = Vec3::new(2i64, 4, 8);
    let rhs = Vec3::new(16i64, 32, 64);

    assert_eq!(lhs.dot(&rhs), 672);
}

#[test]
fn vec3_cross_product_test() {
    let lhs = Vec3::new(5i64, 10, 15);
    let rhs = Vec3::new(3i64, 1, 7);

    assert_eq!(lhs.cross(&rhs), Vec3::new(55, 10, -25));
}

#[test]
fn vec3_cross_product_mul_trait_test() {
    let lhs = Vec3::new(5i64, 10, 15);
    let rhs = Vec3::new(3i64, 1, 7);

    assert_eq!(lhs.mul(rhs), Vec3::new(55, 10, -25));
}

#[test]
fn vec3_add_test() {
    let lhs = Vec3::new(2i64, 4, 8);
    let rhs = Vec3::new(16i64, 32, 64);

    assert_eq!(lhs.add(rhs), Vec3::new(18, 36, 72));
}

#[test]
fn vec3_sub_test() {
    let lhs = Vec3::new(2i64, 4, 8);
    let rhs = Vec3::new(16i64, 32, 64);

    assert_eq!(lhs.sub(rhs), Vec3::new(-14, -28, -56));
}

#[test]
fn vec3_add_scalar_test() {
    let lhs = Vec3::new(32i64, 64, 128);
    let rhs: i64 = 10;

    assert_eq!(lhs.add_scalar(rhs), Vec3::new(42, 74, 138));
}

#[test]
fn vec3_sub_scalar_test() {
    let lhs = Vec3::new(32i64, 64, 128);
    let rhs: i64 = 10;

    assert_eq!(lhs.sub_scalar(rhs), Vec3::new(22, 54, 118));
}

#[test]
fn vec3_mul_scalar_test() {
    let lhs = Vec3::new(32i64, 64, 128);
    let rhs: i64 = 10;

    assert_eq!(lhs.mul_scalar(rhs), Vec3::new(320, 640, 1280));
}

#[test]
fn vec3_div_scalar_test() {
    let lhs = Vec3::new(32i64, 64, 128);
    let rhs: i64 = 4;

    assert_eq!(lhs.div_scalar(rhs), Vec3::new(8, 16, 32));
}
