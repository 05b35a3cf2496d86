use cube_sphere::vector::IntVec3;

#[test]
fn dot_of_two_vectors() {
    let a = IntVec3::new(1, 2, 3);
    let b = IntVec3::new(4, -5, 6);
    assert_eq!(a.dot(&b), 12);
    assert_eq!(b.dot(&a), 12);
}

#[test]
fn dot_at_the_edge_of_the_range() {
    let a = IntVec3::new(i64::MAX, 0, 0);
    let b = IntVec3::new(1, 7, -9);
    assert_eq!(a.dot(&b), i64::MAX);
    let c = IntVec3::new(i64::MIN, i64::MIN, 0);
    let d = IntVec3::new(1, -1, 0);
    assert_eq!(c.dot(&d), 0);
}

#[test]
fn cross_of_two_vectors() {
    let a = IntVec3::new(1, 2, 3);
    let b = IntVec3::new(4, 5, 6);
    assert_eq!(a.cross(&b), IntVec3::new(-3, 6, -3));
    assert_eq!(b.cross(&a), IntVec3::new(3, -6, 3));
    assert_eq!(a.cross(&a), IntVec3::new(0, 0, 0));
}

#[test]
fn cross_of_the_axes() {
    let x = IntVec3::new(1, 0, 0);
    let y = IntVec3::new(0, 1, 0);
    let z = IntVec3::new(0, 0, 1);
    assert_eq!(x.cross(&y), z);
    assert_eq!(y.cross(&z), x);
    assert_eq!(z.cross(&x), y);
}

#[test]
fn plus_minus_and_scaled() {
    let a = IntVec3::new(1, -2, 3);
    let b = IntVec3::new(10, 20, 30);
    assert_eq!(a.plus(&b), IntVec3::new(11, 18, 33));
    assert_eq!(a.minus(&b), IntVec3::new(-9, -22, -27));
    assert_eq!(a.scaled(-4), IntVec3::new(-4, 8, -12));
    assert_eq!(a.scaled(0), IntVec3::new(0, 0, 0));
}
