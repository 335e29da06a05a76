//! What holds of the rules for every input, stated and proved.

use vstd::prelude::*;
use crate::collision::{lemma_one_blast_per_kill, touching_pairs};
use crate::enemy::Enemy;
use crate::explosion::{faded, faded_by_ticks, Explosion, EXPLOSION_LIFETIME_TICKS};
use crate::game::{Frame, GameView};
use crate::geometry::{clamped, displacement, Point, ARENA_HEIGHT};
use crate::input::Input;
use crate::menu::Phase;
use crate::player::{Player, COOLDOWN_MS};
use crate::projectile::{total_ms, Projectile, ESCAPE_LINE, PROJECTILE_BOOST};
use crate::timing::{SpawnTimer, TimeBase, SPAWN_PERIOD_TICKS, TICK};

verus! {

/// Two opposing keys held together cancel: the direction on their axis is
/// zero, the distance to travel on it is zero for every speed and every
/// frame length, and a ship inside its zone stays where it is on that axis.
pub proof fn law_opposing_keys_cancel(input: Input, ship: Player, dt_ms: u32)
    ensures
        input.left && input.right ==> {
            &&& input.intent_of().x == 0
            &&& displacement(input.intent_of().x as int, ship.speed as int, dt_ms as int) == 0
            &&& ship.in_zone() ==> ship.moved(input.intent_of(), dt_ms).position.x
                == ship.position.x
        },
        input.up && input.down ==> {
            &&& input.intent_of().y == 0
            &&& displacement(input.intent_of().y as int, ship.speed as int, dt_ms as int) == 0
            &&& ship.in_zone() ==> ship.moved(input.intent_of(), dt_ms).position.y
                == ship.position.y
        },
{
}

/// Clamping puts any value inside the interval, and leaves a value that is
/// inside where it is.
pub proof fn law_clamp_confines(v: int, lo: int, hi: int)
    requires
        lo <= hi,
    ensures
        lo <= clamped(v, lo, hi) <= hi,
        lo <= v <= hi ==> clamped(v, lo, hi) == v,
{
}

/// Wherever the ship was, whatever keys are held and however long the frame,
/// the ship is inside its zone once it has moved.
pub proof fn law_ship_stays_in_zone(ship: Player, input: Input, dt_ms: u32)
    ensures
        ship.moved(input.intent_of(), dt_ms).in_zone(),
{
}

/// A bolt leaves the ship when the trigger is pulled and the last shot is
/// at least the cooldown in the past, and only then.
pub proof fn law_shot_needs_cooldown(ship: Player, shoot: bool, now_ms: u64)
    ensures
        ship.fires(shoot, now_ms) <==> shoot && now_ms - ship.last_shot >= COOLDOWN_MS,
{
}

/// Pulls of the trigger that come one cooldown apart, the first of them on
/// a gun that has cooled down, each produce a bolt.
pub proof fn law_steady_fire(ship: Player, pulses: Seq<u64>)
    requires
        pulses.len() > 0 ==> ship.ready(pulses[0]),
        forall|i: int|
            0 <= i < pulses.len() - 1 ==> #[trigger] pulses[i + 1] - pulses[i] == COOLDOWN_MS,
    ensures
        ship.volley(pulses) == pulses.len(),
    decreases pulses.len(),
{
    if pulses.len() > 0 {
        let rest = pulses.skip(1);
        assert forall|i: int| 0 <= i < rest.len() - 1 implies #[trigger] rest[i + 1] - rest[i]
            == COOLDOWN_MS by {}
        law_steady_fire(ship.after_trigger(true, pulses[0]), rest);
    }
}

/// While a game is played and the ship is not lost, a step adds to the
/// score exactly one for every pair of an enemy and a bolt that touch, as
/// long as the score can hold the sum, and puts exactly one new blast on
/// the field for every such pair.
pub proof fn law_score_counts_kills(game: GameView, frame: Frame, column: i32)
    requires
        game.wf(),
        game.score.is_some(),
        !game.lost(frame),
        game.score.unwrap() + touching_pairs(game.fleet(frame), game.bolts(frame)).len()
            <= u64::MAX,
    ensures
        game.after(frame, column).score == Some(
            (game.score.unwrap() + touching_pairs(game.fleet(frame), game.bolts(frame)).len())
                as u64,
        ),
        game.after(frame, column).explosions.len() == faded(
            game.explosions,
            game.pace(frame),
        ).len() + touching_pairs(game.fleet(frame), game.bolts(frame)).len(),
{
    lemma_one_blast_per_kill(game.fleet(frame), game.bolts(frame));
    reveal(Seq::filter);
}

/// The height a bolt has reached after some frames: as far as its speed
/// took it, or the top of the arena.
proof fn lemma_bolt_rises(bolt: Projectile, frames: Seq<u32>)
    requires
        bolt.position.y >= -ARENA_HEIGHT,
    ensures
        bolt.moved_through(frames).speed == bolt.speed,
        bolt.moved_through(frames).position.y >= -ARENA_HEIGHT,
        bolt.moved_through(frames).position.y >= ARENA_HEIGHT || bolt.moved_through(
            frames,
        ).position.y >= bolt.position.y + PROJECTILE_BOOST * (bolt.speed * total_ms(frames)),
    decreases frames.len(),
{
    if frames.len() > 0 {
        let earlier = frames.drop_last();
        lemma_bolt_rises(bolt, earlier);
        let speed = bolt.speed as int;
        let before = total_ms(earlier);
        let dt = frames.last() as int;
        assert(speed * (before + dt) == speed * before + speed * dt) by (nonlinear_arith);
        assert(speed * dt >= 0) by (nonlinear_arith)
            requires
                speed >= 0,
                dt >= 0,
        ;
    }
}

/// No bolt stays for ever. A bolt inside the arena has left the field once
/// it has flown for as long as its speed needs to take it to the line where
/// bolts are dropped, however that time is cut into frames.
pub proof fn law_bolt_leaves(bolt: Projectile, frames: Seq<u32>)
    requires
        bolt.position.y >= -ARENA_HEIGHT,
        bolt.position.y + PROJECTILE_BOOST * (bolt.speed * total_ms(frames)) >= ESCAPE_LINE,
    ensures
        bolt.moved_through(frames).escaped(),
{
    lemma_bolt_rises(bolt, frames);
}

/// A new game starts with a score of zero.
pub proof fn law_new_game_scores_zero(game: GameView, now_ms: u64)
    ensures
        game.begun(now_ms).score == Some(0u64),
{
}

/// A blast that appears at some tick is on the field for the thirty ticks
/// that follow, one tick older each time, and is gone at the thirty-first.
pub proof fn law_blast_lifetime(position: Point, ticks: nat)
    ensures
        ticks <= EXPLOSION_LIFETIME_TICKS ==> faded_by_ticks(
            seq![Explosion::at(position)],
            ticks,
        ) == seq![Explosion::at(position).aged(ticks * TICK)],
        ticks > EXPLOSION_LIFETIME_TICKS ==> faded_by_ticks(seq![Explosion::at(position)], ticks)
            == Seq::<Explosion>::empty(),
    decreases ticks,
{
    reveal_with_fuel(Seq::filter, 2);
    if ticks > 0 {
        let earlier = (ticks - 1) as nat;
        law_blast_lifetime(position, earlier);
        if ticks <= EXPLOSION_LIFETIME_TICKS {
            let previous = faded_by_ticks(seq![Explosion::at(position)], earlier);
            assert(faded(previous, TICK as int) =~= seq![
                Explosion::at(position).aged(ticks * TICK),
            ]);
        }
    }
}

/// Counted in whole ticks, a full arrival countdown runs for thirty calls:
/// the first twenty-nine shorten it by one tick each and bring no enemy,
/// the thirtieth brings one and leaves the countdown full again.
pub proof fn law_spawn_timer_cycle(calls: nat)
    ensures
        calls < SPAWN_PERIOD_TICKS ==> SpawnTimer::full().after_ticks(calls) == (SpawnTimer {
            remaining: ((SPAWN_PERIOD_TICKS - calls) * TICK) as u32,
        }),
        calls + 1 < SPAWN_PERIOD_TICKS ==> !SpawnTimer::full().after_ticks(calls).due(TICK as int),
        calls + 1 == SPAWN_PERIOD_TICKS ==> SpawnTimer::full().after_ticks(calls).due(TICK as int),
        calls == SPAWN_PERIOD_TICKS ==> SpawnTimer::full().after_ticks(calls) == SpawnTimer::full(),
    decreases calls,
{
    if calls > 0 {
        law_spawn_timer_cycle((calls - 1) as nat);
    }
}

/// While the ship is not lost, the arrival countdown of a game that counts
/// in whole ticks moves by one tick with every step, whatever else happens.
proof fn lemma_countdown_follows_steps(
    game: GameView,
    frames: Seq<Frame>,
    columns: Seq<i32>,
    steps: int,
)
    requires
        game.wf(),
        game.config.time_base == TimeBase::PerTick,
        game.spawn_timer.is_some(),
        frames.len() == columns.len(),
        0 <= steps <= frames.len(),
        forall|k: int|
            0 <= k < steps ==> !(#[trigger] game.after_all(frames.take(k), columns.take(k))).lost(
                frames[k],
            ),
    ensures
        game.after_all(frames.take(steps), columns.take(steps)).wf(),
        game.after_all(frames.take(steps), columns.take(steps)).config == game.config,
        game.after_all(frames.take(steps), columns.take(steps)).spawn_timer == Some(
            game.spawn_timer.unwrap().after_ticks(steps as nat),
        ),
    decreases steps,
{
    if steps > 0 {
        lemma_countdown_follows_steps(game, frames, columns, steps - 1);
        assert(frames.take(steps).drop_last() =~= frames.take(steps - 1));
        assert(columns.take(steps).drop_last() =~= columns.take(steps - 1));
        let before = game.after_all(frames.take(steps - 1), columns.take(steps - 1));
        law_step_keeps_well_formed(before, frames[steps - 1], columns[steps - 1]);
    }
}

/// In a game that counts in whole ticks, thirty steps after the arrival
/// countdown was full, and with the ship not lost on the way, the first
/// twenty-nine steps bring no enemy, the thirtieth brings one in the column
/// it is given, and the countdown is full again.
pub proof fn law_arrival_every_thirty_ticks(game: GameView, frames: Seq<Frame>, columns: Seq<i32>)
    requires
        game.wf(),
        game.config.time_base == TimeBase::PerTick,
        game.spawn_timer == Some(SpawnTimer::full()),
        frames.len() == SPAWN_PERIOD_TICKS,
        columns.len() == SPAWN_PERIOD_TICKS,
        forall|k: int|
            0 <= k < frames.len() ==> !(#[trigger] game.after_all(
                frames.take(k),
                columns.take(k),
            )).lost(frames[k]),
    ensures
        forall|k: int|
            0 <= k < frames.len() - 1 ==> !(#[trigger] game.after_all(
                frames.take(k),
                columns.take(k),
            )).arrival_due(frames[k]),
        game.after_all(frames.drop_last(), columns.drop_last()).arrival_due(frames.last()),
        game.after_all(frames, columns).spawn_timer == Some(SpawnTimer::full()),
        game.after_all(frames, columns).enemies.len() > 0,
        game.after_all(frames, columns).enemies.last() == Enemy::arriving_at(columns.last()),
{
    assert forall|k: int| 0 <= k < frames.len() - 1 implies !(#[trigger] game.after_all(
        frames.take(k),
        columns.take(k),
    )).arrival_due(frames[k]) by {
        lemma_countdown_follows_steps(game, frames, columns, k);
        law_spawn_timer_cycle(k as nat);
    }
    let last = frames.len() - 1;
    lemma_countdown_follows_steps(game, frames, columns, last);
    law_spawn_timer_cycle(last as nat);
    law_spawn_timer_cycle(frames.len());
}

/// When an enemy touches the ship, the step ends the game: the ship, every
/// enemy, the score and the arrival countdown are gone when it returns.
pub proof fn law_collision_ends_game(game: GameView, frame: Frame, column: i32)
    requires
        game.wf(),
        game.lost(frame),
    ensures
        game.after(frame, column).phase == Phase::GameOver,
        game.after(frame, column).player.is_none(),
        game.after(frame, column).enemies.len() == 0,
        game.after(frame, column).score.is_none(),
        game.after(frame, column).spawn_timer.is_none(),
{
}

/// A step takes a state that a game can be in to a state that a game can be in.
pub proof fn law_step_keeps_well_formed(game: GameView, frame: Frame, column: i32)
    requires
        game.wf(),
    ensures
        game.after(frame, column).wf(),
{
    broadcast use vstd::seq_lib::group_filter_ensures;

    reveal(Seq::filter);
}

} // verus!
