use stg_engine::position::Position;

fn float_distance(a: (i32, i32), b: (i32, i32)) -> i32 {
    let x = (a.0 - b.0).pow(2) as f64;
    let y = (a.1 - b.1).pow(2) as f64;
    (x + y).sqrt().round() as i32
}

#[test]
fn test_distance() {
    let a = Position::new(0, 0);
    let b = Position::new(3, 4);
    assert_eq!(a.distance(b), 5);
}

#[test]
fn new_and_aquire_agree() {
    assert_eq!(Position::new(3, -4).aquire(), (3, -4));
    assert_eq!(Position::new(i32::MIN, i32::MAX).aquire(), (i32::MIN, i32::MAX));
}

#[test]
fn default_is_the_origin() {
    assert_eq!(Position::default().aquire(), (0, 0));
}

#[test]
fn update_replaces_both_coordinates() {
    let mut p = Position::new(1, 2);
    p.update(-7, 9);
    assert_eq!(p.aquire(), (-7, 9));
    p.update(0, 0);
    assert_eq!(p.aquire(), (0, 0));
}

#[test]
fn distance_to_self_is_zero() {
    let p = Position::new(-12, 40);
    assert_eq!(p.distance(p), 0);
    assert_eq!(p.exact_distance(p), 0);
}

#[test]
fn distance_is_symmetric() {
    let a = Position::new(-3, 8);
    let b = Position::new(10, -1);
    assert_eq!(a.distance(b), b.distance(a));
    assert_eq!(a.distance(b), 16);
}

#[test]
fn distance_along_an_axis_is_exact() {
    assert_eq!(Position::new(5, 7).distance(Position::new(5, -3)), 10);
    assert_eq!(Position::new(-5, 7).distance(Position::new(15, 7)), 20);
}

#[test]
fn distance_rounds_to_the_nearest_integer() {
    let origin = Position::new(0, 0);
    // sqrt(2) = 1.41..
    assert_eq!(origin.distance(Position::new(1, 1)), 1);
    // sqrt(5) = 2.23..
    assert_eq!(origin.distance(Position::new(1, 2)), 2);
    // sqrt(8) = 2.82..
    assert_eq!(origin.distance(Position::new(2, 2)), 3);
    // sqrt(13) = 3.60..
    assert_eq!(origin.distance(Position::new(3, 2)), 4);
    // sqrt(20) = 4.47..
    assert_eq!(origin.distance(Position::new(4, 2)), 4);
    // sqrt(2 * 46340^2) = 65534.65..
    assert_eq!(origin.distance(Position::new(46340, 46340)), 65535);
}

#[test]
fn distance_agrees_with_floating_point() {
    let origin = (0, 0);
    for x in -60..60 {
        for y in -60..60 {
            let d = Position::new(0, 0).distance(Position::new(x, y));
            assert_eq!(d, float_distance(origin, (x, y)));
        }
    }
    for k in 0..2000 {
        let a = (k * 23 - 20000, 7 * k - 3000);
        let b = (20000 - k * 17, k * k / 100 - 9000);
        let d = Position::new(a.0, a.1).distance(Position::new(b.0, b.1));
        assert_eq!(d, float_distance(a, b));
    }
}

#[test]
fn distance_stops_at_the_largest_i32() {
    let a = Position::new(i32::MIN, i32::MIN);
    let b = Position::new(i32::MAX, i32::MAX);
    assert_eq!(a.distance(b), i32::MAX);
    assert_eq!(a.exact_distance(b), 6074000999);
    let c = Position::new(i32::MIN, 0);
    let d = Position::new(i32::MAX, 0);
    assert_eq!(c.distance(d), i32::MAX);
    assert_eq!(c.exact_distance(d), 4294967295);
    let e = Position::new(0, 0);
    assert_eq!(e.distance(d), i32::MAX);
    assert_eq!(e.distance(Position::new(i32::MAX - 1, 0)), i32::MAX - 1);
}
