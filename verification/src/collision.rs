//! The hit pass: bolts against enemies, and enemies against the ship.
//!
//! Nothing is removed while the pass runs. A bolt can strike several enemies
//! in one pass and an enemy can be struck by several bolts; every striking
//! pair counts. What was struck is marked or listed, and is taken out in one
//! sweep once the pass is over.

use vstd::prelude::*;
use vstd::set_lib::lemma_set_disjoint_lens;
use crate::enemy::Enemy;
use crate::explosion::Explosion;
use crate::geometry::{collide, overlaps, Point};
use crate::projectile::Projectile;

verus! {

/// How many of `shots` touch a body centred at `target`.
pub open spec fn hits_on(target: Point, shots: Seq<Projectile>) -> nat {
    shots.filter(|s: Projectile| overlaps(target, s.position)).len()
}

/// How many of `enemies` touch a body centred at `target`.
pub open spec fn rams_on(target: Point, enemies: Seq<Enemy>) -> nat {
    enemies.filter(|e: Enemy| overlaps(target, e.position)).len()
}

/// The pairs of an enemy and a bolt that touch, each given by the places
/// of the two in their lists.
pub open spec fn touching_pairs(enemies: Seq<Enemy>, shots: Seq<Projectile>) -> Set<(int, int)> {
    Set::new(
        |pair: (int, int)|
            0 <= pair.0 < enemies.len() && 0 <= pair.1 < shots.len() && overlaps(
                enemies[pair.0].position,
                shots[pair.1].position,
            ),
    )
}

/// How many pairs of an enemy and a bolt touch.
pub open spec fn kills(enemies: Seq<Enemy>, shots: Seq<Projectile>) -> nat {
    touching_pairs(enemies, shots).len()
}

/// `count` new blasts at `position`.
pub open spec fn burst(position: Point, count: nat) -> Seq<Explosion> {
    Seq::new(count, |i: int| Explosion::at(position))
}

/// The blasts that the kills leave: enemy by enemy, one per bolt that
/// touches it, each where that enemy is.
pub open spec fn kill_blasts(enemies: Seq<Enemy>, shots: Seq<Projectile>) -> Seq<Explosion> {
    enemies.flat_map(|e: Enemy| burst(e.position, hits_on(e.position, shots)))
}

/// The enemy after the hit pass: no longer alive when a bolt touches it.
pub open spec fn marked(enemy: Enemy, shots: Seq<Projectile>) -> Enemy {
    Enemy { alive: enemy.alive && hits_on(enemy.position, shots) == 0, ..enemy }
}

/// The enemies after the hit pass.
pub open spec fn all_marked(enemies: Seq<Enemy>, shots: Seq<Projectile>) -> Seq<Enemy> {
    enemies.map_values(|e: Enemy| marked(e, shots))
}

/// The enemies that stay once the sweep has taken out those not alive.
pub open spec fn survivors(enemies: Seq<Enemy>) -> Seq<Enemy> {
    enemies.filter(|e: Enemy| e.alive)
}

/// Whether a bolt stays: it has not left the field and touches no enemy.
pub open spec fn flies_on(shot: Projectile, enemies: Seq<Enemy>) -> bool {
    !shot.escaped() && rams_on(shot.position, enemies) == 0
}

/// The bolts that stay once the sweep has taken out those that left the
/// field or struck an enemy.
pub open spec fn remaining_shots(shots: Seq<Projectile>, enemies: Seq<Enemy>) -> Seq<Projectile> {
    shots.filter(|s: Projectile| flies_on(s, enemies))
}

/// The touching pairs of the one enemy that stands at `target` in place `index`.
spec fn row(index: int, target: Point, shots: Seq<Projectile>) -> Set<(int, int)> {
    Set::new(
        |pair: (int, int)|
            pair.0 == index && 0 <= pair.1 < shots.len() && overlaps(
                target,
                shots[pair.1].position,
            ),
    )
}

proof fn lemma_row_size(index: int, target: Point, shots: Seq<Projectile>)
    ensures
        row(index, target, shots).finite(),
        row(index, target, shots).len() == hits_on(target, shots),
    decreases shots.len(),
{
    reveal(Seq::filter);
    if shots.len() == 0 {
        assert(row(index, target, shots) =~= Set::<(int, int)>::empty());
    } else {
        let rest = shots.drop_last();
        lemma_row_size(index, target, rest);
        let last = (index, shots.len() - 1);
        if overlaps(target, shots.last().position) {
            assert(row(index, target, shots) =~= row(index, target, rest).insert(last));
        } else {
            assert(row(index, target, shots) =~= row(index, target, rest));
        }
    }
}

/// Without enemies nothing is hit.
pub proof fn lemma_no_enemies_no_kills(shots: Seq<Projectile>)
    ensures
        touching_pairs(Seq::<Enemy>::empty(), shots).finite(),
        kills(Seq::<Enemy>::empty(), shots) == 0,
        kill_blasts(Seq::<Enemy>::empty(), shots) == Seq::<Explosion>::empty(),
{
    assert(touching_pairs(Seq::<Enemy>::empty(), shots) =~= Set::<(int, int)>::empty());
    assert(Seq::<Enemy>::empty().map_values(
        |e: Enemy| burst(e.position, hits_on(e.position, shots)),
    ) =~= Seq::<Seq<Explosion>>::empty());
}

/// One more enemy adds as many kills as there are bolts that touch it, and
/// as many blasts, all where it stands and all after the blasts of the
/// enemies before it.
pub proof fn lemma_kills_by_enemy(enemies: Seq<Enemy>, enemy: Enemy, shots: Seq<Projectile>)
    requires
        touching_pairs(enemies, shots).finite(),
    ensures
        touching_pairs(enemies.push(enemy), shots).finite(),
        kills(enemies.push(enemy), shots) == kills(enemies, shots) + hits_on(
            enemy.position,
            shots,
        ),
        kill_blasts(enemies.push(enemy), shots) == kill_blasts(enemies, shots) + burst(
            enemy.position,
            hits_on(enemy.position, shots),
        ),
{
    broadcast use Seq::lemma_flatten_push;

    let earlier = touching_pairs(enemies, shots);
    let latest = row(enemies.len() as int, enemy.position, shots);
    lemma_row_size(enemies.len() as int, enemy.position, shots);
    assert(touching_pairs(enemies.push(enemy), shots) =~= earlier + latest);
    lemma_set_disjoint_lens(earlier, latest);
    let blast = |e: Enemy| burst(e.position, hits_on(e.position, shots));
    assert(enemies.push(enemy).map_values(blast) =~= enemies.map_values(blast).push(blast(enemy)));
}

/// Every pair of an enemy and a bolt that touch leaves exactly one blast.
pub proof fn lemma_one_blast_per_kill(enemies: Seq<Enemy>, shots: Seq<Projectile>)
    ensures
        touching_pairs(enemies, shots).finite(),
        kill_blasts(enemies, shots).len() == kills(enemies, shots),
    decreases enemies.len(),
{
    if enemies.len() == 0 {
        assert(enemies =~= Seq::<Enemy>::empty());
        lemma_no_enemies_no_kills(shots);
    } else {
        lemma_one_blast_per_kill(enemies.drop_last(), shots);
        lemma_kills_by_enemy(enemies.drop_last(), enemies.last(), shots);
        assert(enemies.drop_last().push(enemies.last()) =~= enemies);
    }
}

/// Which enemies touch a body depends on where the enemies are and on
/// nothing else about them.
pub proof fn lemma_rams_follow_positions(target: Point, a: Seq<Enemy>, b: Seq<Enemy>)
    requires
        a.len() == b.len(),
        forall|i: int| 0 <= i < a.len() ==> a[i].position == b[i].position,
    ensures
        rams_on(target, a) == rams_on(target, b),
    decreases a.len(),
{
    reveal(Seq::filter);
    if a.len() > 0 {
        lemma_rams_follow_positions(target, a.drop_last(), b.drop_last());
    }
}

/// Which bolts stay depends on where the enemies are and on nothing else
/// about them.
pub proof fn lemma_shots_follow_positions(shots: Seq<Projectile>, a: Seq<Enemy>, b: Seq<Enemy>)
    requires
        a.len() == b.len(),
        forall|i: int| 0 <= i < a.len() ==> a[i].position == b[i].position,
    ensures
        remaining_shots(shots, a) == remaining_shots(shots, b),
    decreases shots.len(),
{
    reveal(Seq::filter);
    if shots.len() > 0 {
        lemma_shots_follow_positions(shots.drop_last(), a, b);
        lemma_rams_follow_positions(shots.last().position, a, b);
    }
}

/// Counts the bolts that touch a body centred at `target`.
pub fn count_hits(target: Point, shots: &Vec<Projectile>) -> (n: usize)
    ensures
        n == hits_on(target, shots@),
{
    let mut n: usize = 0;
    let mut j: usize = 0;
    while j < shots.len()
        invariant
            j <= shots.len(),
            n <= j,
            n == hits_on(target, shots@.take(j as int)),
        decreases shots.len() - j,
    {
        proof {
            reveal(Seq::filter);
            assert(shots@.take(j + 1).drop_last() =~= shots@.take(j as int));
        }
        if collide(target, shots[j].position) {
            n = n + 1;
        }
        j = j + 1;
    }
    assert(shots@.take(j as int) =~= shots@);
    n
}

/// Counts the enemies that touch a body centred at `target`.
pub fn count_rams(target: Point, enemies: &Vec<Enemy>) -> (n: usize)
    ensures
        n == rams_on(target, enemies@),
{
    let mut n: usize = 0;
    let mut j: usize = 0;
    while j < enemies.len()
        invariant
            j <= enemies.len(),
            n <= j,
            n == rams_on(target, enemies@.take(j as int)),
        decreases enemies.len() - j,
    {
        proof {
            reveal(Seq::filter);
            assert(enemies@.take(j + 1).drop_last() =~= enemies@.take(j as int));
        }
        if collide(target, enemies[j].position) {
            n = n + 1;
        }
        j = j + 1;
    }
    assert(enemies@.take(j as int) =~= enemies@);
    n
}

/// Appends `count` new blasts at `position`.
pub fn push_burst(blasts: &mut Vec<Explosion>, position: Point, count: usize)
    ensures
        final(blasts)@ == old(blasts)@ + burst(position, count as nat),
{
    let mut k: usize = 0;
    while k < count
        invariant
            k <= count,
            blasts@ == old(blasts)@ + burst(position, k as nat),
        decreases count - k,
    {
        blasts.push(Explosion::new(position));
        k = k + 1;
    }
}

/// Runs the bolts against the enemies.
///
/// Every enemy that a bolt touches is marked as no longer alive, and every
/// touching pair leaves a blast where the enemy is. Returns the number of
/// touching pairs, which is what the score gains.
pub fn resolve_kills(
    enemies: &mut Vec<Enemy>,
    shots: &Vec<Projectile>,
    blasts: &mut Vec<Explosion>,
) -> (count: usize)
    ensures
        final(enemies)@ == all_marked(old(enemies)@, shots@),
        final(blasts)@ == old(blasts)@ + kill_blasts(old(enemies)@, shots@),
        count == kills(old(enemies)@, shots@),
{
    let before: usize = blasts.len();
    let mut i: usize = 0;
    proof {
        assert(old(enemies)@.take(0) =~= Seq::<Enemy>::empty());
        lemma_no_enemies_no_kills(shots@);
    }
    while i < enemies.len()
        invariant
            i <= enemies.len(),
            before == old(blasts)@.len(),
            enemies@.len() == old(enemies)@.len(),
            forall|k: int| 0 <= k < i ==> enemies@[k] == marked(old(enemies)@[k], shots@),
            forall|k: int| i <= k < enemies@.len() ==> enemies@[k] == old(enemies)@[k],
            blasts@ == old(blasts)@ + kill_blasts(old(enemies)@.take(i as int), shots@),
            touching_pairs(old(enemies)@.take(i as int), shots@).finite(),
            kill_blasts(old(enemies)@.take(i as int), shots@).len() == kills(
                old(enemies)@.take(i as int),
                shots@,
            ),
        decreases enemies.len() - i,
    {
        let mut enemy = enemies[i];
        proof {
            lemma_kills_by_enemy(old(enemies)@.take(i as int), enemy, shots@);
            assert(old(enemies)@.take(i as int).push(enemy) =~= old(enemies)@.take(i + 1));
        }
        let struck: usize = count_hits(enemy.position, shots);
        if struck > 0 {
            enemy.alive = false;
        }
        enemies.set(i, enemy);
        push_burst(blasts, enemy.position, struck);
        i = i + 1;
    }
    assert(old(enemies)@.take(i as int) =~= old(enemies)@);
    blasts.len() - before
}

/// Runs the enemies against the ship at `player`.
///
/// Every enemy that touches the ship leaves a blast where the ship is.
/// Returns whether the ship is lost, which it is when any enemy touches it.
pub fn resolve_rams(player: Point, enemies: &Vec<Enemy>, blasts: &mut Vec<Explosion>) -> (lost:
    bool)
    ensures
        lost == (rams_on(player, enemies@) > 0),
        final(blasts)@ == old(blasts)@ + burst(player, rams_on(player, enemies@)),
{
    let rams: usize = count_rams(player, enemies);
    push_burst(blasts, player, rams);
    rams > 0
}

/// Takes out the enemies that are no longer alive, keeping the order of the rest.
pub fn sweep_enemies(enemies: &mut Vec<Enemy>)
    ensures
        final(enemies)@ == survivors(old(enemies)@),
{
    let mut kept: Vec<Enemy> = Vec::new();
    let mut i: usize = 0;
    while i < enemies.len()
        invariant
            i <= enemies.len(),
            enemies@ == old(enemies)@,
            kept@ == survivors(enemies@.take(i as int)),
        decreases enemies.len() - i,
    {
        proof {
            reveal(Seq::filter);
            assert(enemies@.take(i + 1).drop_last() =~= enemies@.take(i as int));
        }
        let enemy = enemies[i];
        if enemy.alive {
            kept.push(enemy);
        }
        i = i + 1;
    }
    assert(enemies@.take(i as int) =~= enemies@);
    *enemies = kept;
}

/// Takes out the bolts that left the field or touch an enemy, keeping the
/// order of the rest.
pub fn sweep_projectiles(shots: &mut Vec<Projectile>, enemies: &Vec<Enemy>)
    ensures
        final(shots)@ == remaining_shots(old(shots)@, enemies@),
{
    let mut kept: Vec<Projectile> = Vec::new();
    let mut i: usize = 0;
    while i < shots.len()
        invariant
            i <= shots.len(),
            shots@ == old(shots)@,
            kept@ == remaining_shots(shots@.take(i as int), enemies@),
        decreases shots.len() - i,
    {
        proof {
            reveal(Seq::filter);
            assert(shots@.take(i + 1).drop_last() =~= shots@.take(i as int));
        }
        let shot = shots[i];
        if !shot.has_escaped() {
            let rams: usize = count_rams(shot.position, enemies);
            if rams == 0 {
                kept.push(shot);
            }
        }
        i = i + 1;
    }
    assert(shots@.take(i as int) =~= shots@);
    *shots = kept;
}

} // verus!
