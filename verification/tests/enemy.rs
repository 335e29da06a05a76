use space_shooter::enemy::{advance_enemies, Enemy, VerticalSeek, ENEMY_SPEED, SPAWN_X_MAX,
    SPAWN_X_MIN};
use space_shooter::geometry::Point;
use space_shooter::input::Intent;

fn enemy_at(x: i64, y: i64) -> Enemy {
    Enemy { position: Point { x, y }, speed: 200, alive: true }
}

#[test]
fn an_enemy_arrives_at_the_top_of_the_arena() {
    assert_eq!(ENEMY_SPEED, 200);
    assert_eq!((SPAWN_X_MIN, SPAWN_X_MAX), (-1200, 1200));
    assert_eq!(Enemy::arrive(5), enemy_at(5_000, 640_000));
    assert_eq!(Enemy::arrive(-1200), enemy_at(-1_200_000, 640_000));
    assert_eq!(Enemy::arrive(1199), enemy_at(1_199_000, 640_000));
    assert_eq!(Enemy::arrive(i32::MIN).position.x, (i32::MIN as i64) * 1000);
}

#[test]
fn sideways_an_enemy_closes_in() {
    let enemy = enemy_at(0, 0);
    for vertical in [VerticalSeek::Away, VerticalSeek::Toward] {
        assert_eq!(enemy.steer(Point { x: 1, y: 0 }, vertical).x, 1);
        assert_eq!(enemy.steer(Point { x: -1, y: 0 }, vertical).x, -1);
        assert_eq!(enemy.steer(Point { x: 0, y: 0 }, vertical), Intent { x: 0, y: 0 });
    }
}

#[test]
fn an_enemy_that_backs_off_moves_away_from_the_players_height() {
    let enemy = enemy_at(0, 0);
    assert_eq!(
        enemy.steer(Point { x: 100_000, y: 50_000 }, VerticalSeek::Away),
        Intent { x: 1, y: -1 }
    );
    assert_eq!(
        enemy.steer(Point { x: -100_000, y: -50_000 }, VerticalSeek::Away),
        Intent { x: -1, y: 1 }
    );
    let mut fleeing = enemy;
    fleeing.advance(Point { x: 100_000, y: 50_000 }, VerticalSeek::Away, 100);
    assert_eq!(fleeing.position, Point { x: 20_000, y: -20_000 });
}

#[test]
fn an_enemy_that_closes_in_moves_toward_the_players_height() {
    let enemy = enemy_at(0, 0);
    assert_eq!(
        enemy.steer(Point { x: 100_000, y: 50_000 }, VerticalSeek::Toward),
        Intent { x: 1, y: 1 }
    );
    assert_eq!(
        enemy.steer(Point { x: -100_000, y: -50_000 }, VerticalSeek::Toward),
        Intent { x: -1, y: -1 }
    );
    let mut chasing = enemy;
    chasing.advance(Point { x: 100_000, y: 50_000 }, VerticalSeek::Toward, 100);
    assert_eq!(chasing.position, Point { x: 20_000, y: 20_000 });
}

#[test]
fn an_enemy_takes_a_full_step_even_past_the_player() {
    let mut enemy = enemy_at(0, 0);
    enemy.advance(Point { x: 1_000, y: 0 }, VerticalSeek::Toward, 1_000);
    assert_eq!(enemy.position, Point { x: 200_000, y: 0 });
    enemy.advance(Point { x: 1_000, y: 0 }, VerticalSeek::Toward, 1_000);
    assert_eq!(enemy.position, Point { x: 0, y: 0 });
}

#[test]
fn only_the_height_of_an_enemy_is_kept_in_the_arena() {
    let mut high = enemy_at(0, 640_000);
    high.advance(Point { x: 0, y: 0 }, VerticalSeek::Away, 16);
    assert_eq!(high.position, Point { x: 0, y: 640_000 });
    let mut low = enemy_at(0, -639_000);
    low.advance(Point { x: 0, y: 0 }, VerticalSeek::Away, 16);
    assert_eq!(low.position, Point { x: 0, y: -640_000 });
    let mut wide = enemy_at(-5_000_000, 0);
    wide.advance(Point { x: -6_000_000, y: 0 }, VerticalSeek::Away, 1_000);
    assert_eq!(wide.position, Point { x: -5_200_000, y: 0 });
}

#[test]
fn an_enemy_cannot_leave_the_coordinate_range() {
    let mut enemy = Enemy {
        position: Point { x: i64::MAX - 10, y: 0 },
        speed: u32::MAX,
        alive: true,
    };
    enemy.advance(Point { x: i64::MAX, y: 0 }, VerticalSeek::Away, u32::MAX);
    assert_eq!(enemy.position, Point { x: i64::MAX, y: 0 });
}

#[test]
fn steering_leaves_speed_and_mark_alone() {
    let mut enemy = Enemy { position: Point { x: 0, y: 0 }, speed: 123, alive: false };
    enemy.advance(Point { x: 5, y: 5 }, VerticalSeek::Toward, 1_000);
    assert_eq!(enemy, Enemy { position: Point { x: 123_000, y: 123_000 }, speed: 123, alive: false });
}

#[test]
fn all_enemies_steer_by_the_same_player() {
    let mut fleet = vec![enemy_at(-50_000, 640_000), enemy_at(50_000, 100_000), enemy_at(0, -100_000)];
    advance_enemies(&mut fleet, Point { x: 0, y: 0 }, VerticalSeek::Away, 10);
    assert_eq!(
        fleet,
        vec![enemy_at(-48_000, 640_000), enemy_at(48_000, 102_000), enemy_at(0, -102_000)]
    );
    advance_enemies(&mut fleet, Point { x: 0, y: 0 }, VerticalSeek::Toward, 10);
    assert_eq!(
        fleet,
        vec![enemy_at(-46_000, 638_000), enemy_at(46_000, 100_000), enemy_at(0, -100_000)]
    );
    let mut none: Vec<Enemy> = Vec::new();
    advance_enemies(&mut none, Point { x: 0, y: 0 }, VerticalSeek::Away, 10);
    assert!(none.is_empty());
}
