use space_shooter::geometry::{clamp, collide, displace, saturate, Point, UNIT};

#[test]
fn from_units_scales_by_the_unit() {
    assert_eq!(UNIT, 1000);
    assert_eq!(Point::from_units(10, 5), Point { x: 10_000, y: 5_000 });
    assert_eq!(Point::from_units(-1200, 640), Point::new(-1_200_000, 640_000));
}

#[test]
fn clamp_pulls_a_value_into_the_interval() {
    assert_eq!(clamp(700_000, -600_000, 600_000), 600_000);
    assert_eq!(clamp(-700_000, -600_000, 600_000), -600_000);
    assert_eq!(clamp(123, -600_000, 600_000), 123);
    assert_eq!(clamp(600_000, -600_000, 600_000), 600_000);
    assert_eq!(clamp(i128::MAX, -320_000, 320_000), 320_000);
    assert_eq!(clamp(i128::MIN, -320_000, 320_000), -320_000);
}

#[test]
fn saturate_stops_at_the_ends_of_the_coordinate_range() {
    assert_eq!(saturate(i64::MAX as i128 + 1), i64::MAX);
    assert_eq!(saturate(i64::MIN as i128 - 1), i64::MIN);
    assert_eq!(saturate(-42), -42);
}

#[test]
fn displacement_is_direction_times_speed_times_time() {
    assert_eq!(displace(1, 500, 16), 8_000);
    assert_eq!(displace(-1, 500, 16), -8_000);
    assert_eq!(displace(0, 500, 16), 0);
    assert_eq!(displace(2, 500, 16), 16_000);
    assert_eq!(displace(1, 200, 1000), 200_000);
    assert_eq!(displace(1, 500, 0), 0);
    assert_eq!(
        displace(1, u32::MAX, u32::MAX),
        (u32::MAX as i128) * (u32::MAX as i128)
    );
}

#[test]
fn bolt_near_an_enemy_touches_it() {
    let enemy = Point::from_units(0, 0);
    let bolt = Point::from_units(10, 5);
    assert!(collide(enemy, bolt));
    assert!(collide(bolt, enemy));
}

#[test]
fn bolt_far_to_the_side_misses() {
    let enemy = Point::from_units(0, 0);
    let bolt = Point::from_units(50, 5);
    assert!(!collide(enemy, bolt));
    assert!(!collide(bolt, enemy));
}

#[test]
fn the_hit_box_is_open_at_its_edges() {
    let centre = Point::new(0, 0);
    assert!(collide(centre, Point::new(45_499, 0)));
    assert!(!collide(centre, Point::new(45_500, 0)));
    assert!(collide(centre, Point::new(-45_499, 0)));
    assert!(!collide(centre, Point::new(-45_500, 0)));
    assert!(collide(centre, Point::new(0, 15_499)));
    assert!(!collide(centre, Point::new(0, 15_500)));
    assert!(collide(centre, Point::new(0, -15_499)));
    assert!(!collide(centre, Point::new(0, -15_500)));
    assert!(!collide(centre, Point::new(10_000, 20_000)));
}

#[test]
fn hit_test_works_at_the_ends_of_the_coordinate_range() {
    let low = Point::new(i64::MIN, i64::MIN);
    let high = Point::new(i64::MAX, i64::MAX);
    assert!(!collide(low, high));
    assert!(collide(high, high));
    assert!(collide(low, Point::new(i64::MIN + 45_499, i64::MIN + 15_499)));
}
