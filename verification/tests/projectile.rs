use space_shooter::animation::Animation;
use space_shooter::geometry::Point;
use space_shooter::projectile::{advance_projectiles, animate_projectiles, Projectile,
    ESCAPE_LINE, MUZZLE_OFFSET, PROJECTILE_SPEED};

#[test]
fn a_bolt_appears_six_units_above_the_ship() {
    assert_eq!(MUZZLE_OFFSET, 6_000);
    assert_eq!(PROJECTILE_SPEED, 500);
    let bolt = Projectile::launch(Point { x: 7_000, y: 300_000 });
    assert_eq!(bolt.position, Point { x: 7_000, y: 306_000 });
    assert_eq!(bolt.speed, 500);
    assert_eq!(bolt.sprite, Animation::new(2, 3, 10));
}

#[test]
fn a_bolt_launched_at_the_top_of_the_range_stays_in_range() {
    let bolt = Projectile::launch(Point { x: 0, y: i64::MAX });
    assert_eq!(bolt.position, Point { x: 0, y: i64::MAX });
    let near = Projectile::launch(Point { x: 0, y: i64::MAX - 6_000 });
    assert_eq!(near.position, Point { x: 0, y: i64::MAX });
}

#[test]
fn a_bolt_rises_at_twice_its_speed() {
    let mut bolt = Projectile::launch(Point { x: 5_000, y: 0 });
    bolt.advance(16);
    assert_eq!(bolt.position, Point { x: 5_000, y: 22_000 });
    bolt.advance(100);
    assert_eq!(bolt.position, Point { x: 5_000, y: 122_000 });
    bolt.advance(0);
    assert_eq!(bolt.position, Point { x: 5_000, y: 122_000 });
}

#[test]
fn a_bolt_is_kept_inside_the_arena() {
    let mut bolt = Projectile::launch(Point { x: 0, y: 0 });
    bolt.advance(10_000);
    assert_eq!(bolt.position, Point { x: 0, y: 640_000 });
    let mut stray = Projectile {
        position: Point { x: 5_000_000, y: -5_000_000 },
        speed: 500,
        sprite: Animation::new(2, 3, 10),
    };
    stray.advance(0);
    assert_eq!(stray.position, Point { x: 1_200_000, y: -640_000 });
    let mut left = Projectile {
        position: Point { x: i64::MIN, y: i64::MAX },
        speed: u32::MAX,
        sprite: Animation::new(2, 3, 10),
    };
    left.advance(u32::MAX);
    assert_eq!(left.position, Point { x: -1_200_000, y: 640_000 });
}

#[test]
fn a_bolt_leaves_the_field_half_way_up() {
    assert_eq!(ESCAPE_LINE, 320_000);
    let mut bolt = Projectile::launch(Point { x: 0, y: 297_999 });
    assert!(!bolt.has_escaped());
    bolt.advance(16);
    assert_eq!(bolt.position.y, 319_999);
    assert!(!bolt.has_escaped());
    bolt.position.y = 320_000;
    assert!(bolt.has_escaped());
    bolt.advance(16);
    assert!(bolt.has_escaped());
}

#[test]
fn all_bolts_fly_together() {
    let mut bolts = vec![
        Projectile::launch(Point { x: 0, y: 0 }),
        Projectile::launch(Point { x: 10_000, y: 100_000 }),
        Projectile::launch(Point { x: -10_000, y: 630_000 }),
    ];
    advance_projectiles(&mut bolts, 10);
    assert_eq!(bolts.len(), 3);
    assert_eq!(bolts[0].position, Point { x: 0, y: 16_000 });
    assert_eq!(bolts[1].position, Point { x: 10_000, y: 116_000 });
    assert_eq!(bolts[2].position, Point { x: -10_000, y: 640_000 });
    let mut none: Vec<Projectile> = Vec::new();
    advance_projectiles(&mut none, 10);
    assert!(none.is_empty());
}

#[test]
fn bolt_sprites_flip_between_their_two_frames() {
    let mut bolts = vec![
        Projectile::launch(Point { x: 0, y: 0 }),
        Projectile::launch(Point { x: 1, y: 1 }),
    ];
    bolts[1].sprite.elapsed_ms = 50;
    animate_projectiles(&mut bolts, 60);
    assert_eq!((bolts[0].sprite.frame, bolts[0].sprite.elapsed_ms), (2, 60));
    assert_eq!((bolts[1].sprite.frame, bolts[1].sprite.elapsed_ms), (3, 0));
    animate_projectiles(&mut bolts, 100);
    assert_eq!(bolts[0].sprite.frame, 3);
    assert_eq!(bolts[1].sprite.frame, 2);
    assert_eq!(bolts[0].position, Point { x: 0, y: 6_000 });
}
