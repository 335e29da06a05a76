use space_shooter::animation::Animation;
use space_shooter::explosion::{age_explosions, animate_explosions, Explosion,
    EXPLOSION_LIFETIME, EXPLOSION_LIFETIME_TICKS};
use space_shooter::geometry::Point;
use space_shooter::timing::{tick_step, TimeBase};

#[test]
fn a_new_blast_has_no_age() {
    assert_eq!(EXPLOSION_LIFETIME_TICKS, 30);
    assert_eq!(EXPLOSION_LIFETIME, 30_000);
    let blast = Explosion::new(Point { x: 3, y: 4 });
    assert_eq!(
        blast,
        Explosion {
            position: Point { x: 3, y: 4 },
            age: 0,
            sprite: Animation { first: 0, last: 4, fps: 10, elapsed_ms: 0, frame: 0 },
        }
    );
}

#[test]
fn a_blast_lives_thirty_ticks_and_is_gone_at_the_next() {
    let mut blasts = vec![Explosion::new(Point { x: 0, y: 0 })];
    for tick in 1..=30u32 {
        age_explosions(&mut blasts, 1000);
        assert_eq!(blasts.len(), 1, "tick {}", tick);
        assert_eq!(blasts[0].age, tick * 1000);
    }
    age_explosions(&mut blasts, 1000);
    assert!(blasts.is_empty());
}

#[test]
fn grow_older_refuses_to_pass_the_lifetime() {
    let mut blast = Explosion::new(Point { x: 0, y: 0 });
    assert!(blast.grow_older(30_000));
    assert_eq!(blast.age, 30_000);
    assert!(!blast.grow_older(1));
    assert_eq!(blast.age, 30_000);
    assert!(blast.grow_older(0));
    let mut young = Explosion::new(Point { x: 0, y: 0 });
    assert!(!young.grow_older(30_001));
    assert_eq!(young.age, 0);
    assert!(!young.grow_older(u64::MAX));
    assert_eq!(young.age, 0);
}

#[test]
fn ageing_keeps_the_order_of_the_blasts_that_stay() {
    let at = |x: i64, age: u32| Explosion {
        position: Point { x, y: 0 },
        age,
        sprite: Animation::new(0, 4, 10),
    };
    let mut blasts = vec![at(1, 29_000), at(2, 30_000), at(3, 0), at(4, 29_001), at(5, 12_000)];
    age_explosions(&mut blasts, 1000);
    assert_eq!(blasts, vec![at(1, 30_000), at(3, 1_000), at(5, 13_000)]);
}

#[test]
fn by_the_clock_a_blast_lives_half_a_second() {
    let mut blasts = vec![Explosion::new(Point { x: 0, y: 0 })];
    let step = tick_step(TimeBase::Elapsed, 100);
    for _ in 0..5 {
        age_explosions(&mut blasts, step);
    }
    assert_eq!(blasts.len(), 1);
    assert_eq!(blasts[0].age, 30_000);
    age_explosions(&mut blasts, tick_step(TimeBase::Elapsed, 1));
    assert!(blasts.is_empty());
}

#[test]
fn blast_sprites_walk_their_five_frames() {
    let mut blasts = vec![Explosion::new(Point { x: 0, y: 0 }), Explosion::new(Point { x: 9, y: 9 })];
    blasts[1].sprite.frame = 4;
    animate_explosions(&mut blasts, 100);
    assert_eq!(blasts[0].sprite.frame, 1);
    assert_eq!(blasts[1].sprite.frame, 0);
    assert_eq!(blasts[0].age, 0);
    assert_eq!(blasts[1].position, Point { x: 9, y: 9 });
    let mut one = Explosion::new(Point { x: 0, y: 0 });
    one.animate(99);
    assert_eq!((one.sprite.frame, one.sprite.elapsed_ms), (0, 99));
}
