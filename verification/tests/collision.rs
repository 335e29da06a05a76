use space_shooter::animation::Animation;
use space_shooter::collision::{count_hits, count_rams, push_burst, resolve_kills, resolve_rams,
    sweep_enemies, sweep_projectiles};
use space_shooter::enemy::Enemy;
use space_shooter::explosion::Explosion;
use space_shooter::geometry::Point;
use space_shooter::projectile::Projectile;

fn enemy_at(x: i64, y: i64) -> Enemy {
    Enemy { position: Point { x, y }, speed: 200, alive: true }
}

fn dead_at(x: i64, y: i64) -> Enemy {
    Enemy { position: Point { x, y }, speed: 200, alive: false }
}

fn bolt_at(x: i64, y: i64) -> Projectile {
    Projectile { position: Point { x, y }, speed: 500, sprite: Animation::new(2, 3, 10) }
}

#[test]
fn one_bolt_on_one_enemy_is_one_kill() {
    let mut enemies = vec![enemy_at(0, 0)];
    let bolts = vec![bolt_at(10_000, 5_000)];
    let mut blasts = Vec::new();
    let kills = resolve_kills(&mut enemies, &bolts, &mut blasts);
    assert_eq!(kills, 1);
    assert_eq!(enemies, vec![dead_at(0, 0)]);
    assert_eq!(blasts, vec![Explosion::new(Point { x: 0, y: 0 })]);
}

#[test]
fn a_bolt_that_passes_wide_kills_nothing() {
    let mut enemies = vec![enemy_at(0, 0)];
    let bolts = vec![bolt_at(50_000, 5_000)];
    let mut blasts = Vec::new();
    let kills = resolve_kills(&mut enemies, &bolts, &mut blasts);
    assert_eq!(kills, 0);
    assert_eq!(enemies, vec![enemy_at(0, 0)]);
    assert!(blasts.is_empty());
}

#[test]
fn every_touching_pair_counts() {
    // Two bolts on the first enemy, one of them also on the second.
    let mut enemies = vec![enemy_at(0, 0), enemy_at(60_000, 0), enemy_at(500_000, 0)];
    let bolts = vec![bolt_at(20_000, 0), bolt_at(-20_000, 10_000), bolt_at(0, 300_000)];
    let mut blasts = vec![Explosion::new(Point { x: 1, y: 1 })];
    let kills = resolve_kills(&mut enemies, &bolts, &mut blasts);
    assert_eq!(kills, 3);
    assert_eq!(enemies, vec![dead_at(0, 0), dead_at(60_000, 0), enemy_at(500_000, 0)]);
    assert_eq!(
        blasts,
        vec![
            Explosion::new(Point { x: 1, y: 1 }),
            Explosion::new(Point { x: 0, y: 0 }),
            Explosion::new(Point { x: 0, y: 0 }),
            Explosion::new(Point { x: 60_000, y: 0 }),
        ]
    );
}

#[test]
fn the_hit_pass_on_an_empty_field_does_nothing() {
    let mut enemies: Vec<Enemy> = Vec::new();
    let mut blasts = Vec::new();
    assert_eq!(resolve_kills(&mut enemies, &vec![bolt_at(0, 0)], &mut blasts), 0);
    let mut lone = vec![enemy_at(0, 0)];
    assert_eq!(resolve_kills(&mut lone, &Vec::new(), &mut blasts), 0);
    assert_eq!(lone, vec![enemy_at(0, 0)]);
    assert!(blasts.is_empty());
}

#[test]
fn an_enemy_already_marked_stays_marked() {
    let mut enemies = vec![dead_at(0, 0)];
    let mut blasts = Vec::new();
    assert_eq!(resolve_kills(&mut enemies, &vec![bolt_at(400_000, 0)], &mut blasts), 0);
    assert_eq!(enemies, vec![dead_at(0, 0)]);
}

#[test]
fn counting_hits_and_rams() {
    let bolts = vec![bolt_at(0, 0), bolt_at(45_499, 15_499), bolt_at(45_500, 0), bolt_at(0, -15_500)];
    assert_eq!(count_hits(Point { x: 0, y: 0 }, &bolts), 2);
    assert_eq!(count_hits(Point { x: 90_000, y: 0 }, &bolts), 2);
    assert_eq!(count_hits(Point { x: 0, y: 100_000 }, &bolts), 0);
    let enemies = vec![enemy_at(0, 0), dead_at(1_000, 1_000), enemy_at(0, 15_500)];
    assert_eq!(count_rams(Point { x: 0, y: 0 }, &enemies), 2);
    assert_eq!(count_rams(Point { x: 0, y: 16_000 }, &enemies), 2);
    assert_eq!(count_rams(Point { x: 0, y: 0 }, &Vec::new()), 0);
}

#[test]
fn a_burst_is_that_many_new_blasts() {
    let mut blasts = vec![Explosion::new(Point { x: 9, y: 9 })];
    push_burst(&mut blasts, Point { x: 1, y: 2 }, 0);
    assert_eq!(blasts.len(), 1);
    push_burst(&mut blasts, Point { x: 1, y: 2 }, 2);
    assert_eq!(
        blasts,
        vec![
            Explosion::new(Point { x: 9, y: 9 }),
            Explosion::new(Point { x: 1, y: 2 }),
            Explosion::new(Point { x: 1, y: 2 }),
        ]
    );
}

#[test]
fn an_enemy_on_the_ship_loses_the_ship() {
    let enemies = vec![enemy_at(300_000, 0), enemy_at(10_000, 5_000)];
    let mut blasts = Vec::new();
    assert!(resolve_rams(Point { x: 0, y: 0 }, &enemies, &mut blasts));
    assert_eq!(blasts, vec![Explosion::new(Point { x: 0, y: 0 })]);
}

#[test]
fn enemies_at_a_distance_leave_the_ship_alone() {
    let enemies = vec![enemy_at(300_000, 0), enemy_at(50_000, 5_000), enemy_at(0, 15_500)];
    let mut blasts = Vec::new();
    assert!(!resolve_rams(Point { x: 0, y: 0 }, &enemies, &mut blasts));
    assert!(blasts.is_empty());
    assert!(!resolve_rams(Point { x: 0, y: 0 }, &Vec::new(), &mut blasts));
}

#[test]
fn every_enemy_on_the_ship_leaves_a_blast() {
    let enemies = vec![enemy_at(1_000, 0), enemy_at(-1_000, 0), dead_at(0, 1_000)];
    let mut blasts = Vec::new();
    assert!(resolve_rams(Point { x: 0, y: 0 }, &enemies, &mut blasts));
    assert_eq!(blasts, vec![Explosion::new(Point { x: 0, y: 0 }); 3]);
}

#[test]
fn the_sweep_takes_out_marked_enemies() {
    let mut enemies = vec![enemy_at(1, 0), dead_at(2, 0), enemy_at(3, 0), dead_at(4, 0)];
    sweep_enemies(&mut enemies);
    assert_eq!(enemies, vec![enemy_at(1, 0), enemy_at(3, 0)]);
    sweep_enemies(&mut enemies);
    assert_eq!(enemies, vec![enemy_at(1, 0), enemy_at(3, 0)]);
    let mut all_dead = vec![dead_at(1, 0)];
    sweep_enemies(&mut all_dead);
    assert!(all_dead.is_empty());
}

#[test]
fn the_sweep_takes_out_bolts_that_left_or_struck() {
    let enemies = vec![enemy_at(0, 0), dead_at(200_000, 0)];
    let mut bolts = vec![
        bolt_at(0, 10_000),
        bolt_at(100_000, 0),
        bolt_at(100_000, 320_000),
        bolt_at(210_000, -1_000),
        bolt_at(-100_000, 319_999),
    ];
    sweep_projectiles(&mut bolts, &enemies);
    assert_eq!(bolts, vec![bolt_at(100_000, 0), bolt_at(-100_000, 319_999)]);
    let mut free = vec![bolt_at(0, 0)];
    sweep_projectiles(&mut free, &Vec::new());
    assert_eq!(free, vec![bolt_at(0, 0)]);
}
