//! The whole game: its state, and the step that one frame takes it through.
//!
//! A step runs the rules in a fixed order: the ship answers the keys, the gun
//! answers the trigger, bolts fly, the arrival countdown moves, enemies steer,
//! the hit pass runs, blasts age, sprites animate. Nothing appears or
//! disappears while the rules run; what the step creates and what it
//! destroys is applied together at its end.

use vstd::prelude::*;
use crate::collision::{
    all_marked,
    burst,
    kill_blasts,
    kills,
    lemma_rams_follow_positions,
    lemma_shots_follow_positions,
    rams_on,
    remaining_shots,
    resolve_kills,
    resolve_rams,
    survivors,
    sweep_enemies,
    sweep_projectiles,
};
use crate::enemy::{advance_enemies, closing_in, Enemy, VerticalSeek, ENEMY_SPEED};
use crate::explosion::{age_explosions, animate_explosions, blasts_animated, faded, Explosion};
use crate::geometry::Point;
use crate::input::Input;
use crate::menu::{command_of, menu_command, Interaction, MenuButtonAction, MenuCommand, MenuState,
    Phase};
use crate::player::{Player, PLAYER_REACH_X, PLAYER_REACH_Y};
use crate::projectile::{advance_projectiles, animate_projectiles, flown, shots_animated,
    Projectile};
use crate::random::draw_column;
use crate::enemy::{SPAWN_X_MAX, SPAWN_X_MIN};
use crate::timing::{step_of, tick_step, SpawnTimer, TimeBase};

verus! {

/// How long the opening screen stays up, in milliseconds.
pub const SPLASH_MS: u32 = 1000;

/// The choices a host makes once, before play.
#[derive(Clone, Copy, Debug, PartialEq, Eq, Structural)]
pub struct Config {
    /// How countdowns are paced.
    pub time_base: TimeBase,
    /// How enemies answer the player's height.
    pub vertical: VerticalSeek,
}

/// What one frame brings from outside.
#[derive(Clone, Copy, Debug, PartialEq, Eq, Structural)]
pub struct Frame {
    /// The keys that are held.
    pub input: Input,
    /// Time since the frame before, in milliseconds.
    pub dt_ms: u32,
    /// Wall-clock time, in milliseconds.
    pub now_ms: u64,
}

/// What happened in one step.
#[derive(Clone, Copy, Debug, PartialEq, Eq, Structural)]
pub struct StepReport {
    /// The opening screen gave way to a new game.
    pub started: bool,
    /// The ship fired a bolt.
    pub fired: bool,
    /// An enemy arrived.
    pub arrived: bool,
    /// Pairs of an enemy and a bolt that touched.
    pub kills: usize,
    /// The ship was lost and the game is over.
    pub lost: bool,
}

/// The score after `gained` more kills; it stops at the largest value it can hold.
pub open spec fn raised(score: u64, gained: nat) -> u64 {
    if score + gained > u64::MAX {
        u64::MAX
    } else {
        (score + gained) as u64
    }
}

/// The time spent on the opening screen after `dt_ms` more milliseconds; it
/// stops at the largest value it can hold.
pub open spec fn waited(splash_ms: u32, dt_ms: u32) -> u32 {
    if splash_ms + dt_ms > u32::MAX {
        u32::MAX
    } else {
        (splash_ms + dt_ms) as u32
    }
}

/// The state of a game, as contracts speak of it.
pub struct GameView {
    pub config: Config,
    pub phase: Phase,
    pub menu: MenuState,
    /// Time spent on the opening screen so far, in milliseconds.
    pub splash_ms: u32,
    pub player: Option<Player>,
    pub enemies: Seq<Enemy>,
    pub projectiles: Seq<Projectile>,
    pub explosions: Seq<Explosion>,
    pub score: Option<u64>,
    pub spawn_timer: Option<SpawnTimer>,
}

impl Config {
    /// The usual choices: one call is one tick, and enemies back off from
    /// the player's height.
    pub open spec fn standard() -> Config {
        Config { time_base: TimeBase::PerTick, vertical: VerticalSeek::Away }
    }
}

impl Default for Config {
    fn default() -> (config: Config)
        ensures
            config == Config::standard(),
    {
        Config { time_base: TimeBase::PerTick, vertical: VerticalSeek::Away }
    }
}

impl GameView {
    /// What holds of every game between two steps: a ship, a score and an
    /// arrival countdown exist exactly while a game is played, the ship is
    /// inside its zone, enemies exist only during play and are all alive,
    /// and a menu page is up exactly when the game is over.
    pub open spec fn wf(self) -> bool {
        &&& (self.phase == Phase::Playing) == self.player.is_some()
        &&& (self.phase == Phase::Playing) == self.score.is_some()
        &&& (self.phase == Phase::Playing) == self.spawn_timer.is_some()
        &&& (self.phase == Phase::GameOver) == (self.menu != MenuState::Disabled)
        &&& self.phase != Phase::Playing ==> self.enemies.len() == 0
        &&& self.player matches Some(ship) ==> ship.in_zone()
        &&& forall|i: int| 0 <= i < self.enemies.len() ==> (#[trigger] self.enemies[i]).alive
    }

    /// The state in which a program opens: the opening screen, nothing on
    /// the field.
    pub open spec fn opening(config: Config) -> GameView {
        GameView {
            config,
            phase: Phase::Splash,
            menu: MenuState::Disabled,
            splash_ms: 0,
            player: None,
            enemies: Seq::empty(),
            projectiles: Seq::empty(),
            explosions: Seq::empty(),
            score: None,
            spawn_timer: None,
        }
    }

    /// The state with a new game begun at time `now_ms`: a new ship, a score
    /// of zero and a full arrival countdown. What is still in flight stays.
    pub open spec fn begun(self, now_ms: u64) -> GameView {
        GameView {
            phase: Phase::Playing,
            menu: MenuState::Disabled,
            player: Some(Player::entering(now_ms)),
            score: Some(0),
            spawn_timer: Some(SpawnTimer::full()),
            ..self
        }
    }

    /// The state with the game over: the ship, every enemy, the score and
    /// the arrival countdown are gone, and the main menu page is up.
    pub open spec fn ended(self) -> GameView {
        GameView {
            phase: Phase::GameOver,
            menu: MenuState::Main,
            player: None,
            enemies: Seq::empty(),
            score: None,
            spawn_timer: None,
            ..self
        }
    }

    /// The amount countdowns move in this frame.
    pub open spec fn pace(self, frame: Frame) -> int {
        step_of(self.config.time_base, frame.dt_ms)
    }

    /// The ship after it has answered the keys.
    pub open spec fn pilot(self, frame: Frame) -> Option<Player> {
        match self.player {
            Some(ship) => Some(ship.moved(frame.input.intent_of(), frame.dt_ms)),
            None => None,
        }
    }

    /// Whether the ship fires in this frame.
    pub open spec fn fires(self, frame: Frame) -> bool {
        self.pilot(frame) matches Some(ship) && ship.fires(frame.input.shoot, frame.now_ms)
    }

    /// Whether an enemy is due in this frame.
    pub open spec fn arrival_due(self, frame: Frame) -> bool {
        self.spawn_timer matches Some(timer) && timer.due(self.pace(frame))
    }

    /// The bolts that were in flight, after they have flown.
    pub open spec fn bolts(self, frame: Frame) -> Seq<Projectile> {
        flown(self.projectiles, frame.dt_ms)
    }

    /// The enemies after they have steered by the ship. Without a ship they stay put.
    pub open spec fn fleet(self, frame: Frame) -> Seq<Enemy> {
        match self.pilot(frame) {
            Some(ship) => closing_in(
                self.enemies,
                ship.position,
                self.config.vertical,
                frame.dt_ms,
            ),
            None => self.enemies,
        }
    }

    /// Whether an enemy touches the ship in this frame.
    pub open spec fn lost(self, frame: Frame) -> bool {
        self.pilot(frame) matches Some(ship) && rams_on(ship.position, self.fleet(frame)) > 0
    }

    /// The blasts that this frame's hits leave: first those of the enemies
    /// that were shot, then one at the ship for every enemy that touches it.
    pub open spec fn new_blasts(self, frame: Frame) -> Seq<Explosion> {
        kill_blasts(self.fleet(frame), self.bolts(frame)) + match self.pilot(frame) {
            Some(ship) => burst(ship.position, rams_on(ship.position, self.fleet(frame))),
            None => Seq::empty(),
        }
    }

    /// The blasts on the field after the step.
    pub open spec fn blasts_after(self, frame: Frame) -> Seq<Explosion> {
        blasts_animated(faded(self.explosions, self.pace(frame)), frame.dt_ms) + self.new_blasts(
            frame,
        )
    }

    /// The bolts on the field after the step.
    pub open spec fn bolts_after(self, frame: Frame) -> Seq<Projectile> {
        shots_animated(remaining_shots(self.bolts(frame), self.fleet(frame)), frame.dt_ms) + match
            self.pilot(frame) {
            Some(ship) => if ship.fires(frame.input.shoot, frame.now_ms) {
                seq![Projectile::launched_from(ship.position)]
            } else {
                Seq::empty()
            },
            None => Seq::empty(),
        }
    }

    /// The enemies on the field after the step, if the ship is not lost. An
    /// enemy that is due appears in column `column`.
    pub open spec fn fleet_after(self, frame: Frame, column: i32) -> Seq<Enemy> {
        survivors(all_marked(self.fleet(frame), self.bolts(frame))) + if self.arrival_due(frame) {
            seq![Enemy::arriving_at(column)]
        } else {
            Seq::empty()
        }
    }

    /// The ship after the step, if it is not lost.
    pub open spec fn ship_after(self, frame: Frame) -> Option<Player> {
        match self.pilot(frame) {
            Some(ship) => Some(
                ship.after_trigger(frame.input.shoot, frame.now_ms).animated(frame.dt_ms),
            ),
            None => None,
        }
    }

    /// The state after the rules of play have run for one frame.
    pub open spec fn played(self, frame: Frame, column: i32) -> GameView {
        let running = GameView {
            player: self.ship_after(frame),
            enemies: self.fleet_after(frame, column),
            projectiles: self.bolts_after(frame),
            explosions: self.blasts_after(frame),
            score: match self.score {
                Some(score) => Some(raised(score, kills(self.fleet(frame), self.bolts(frame)))),
                None => None,
            },
            spawn_timer: match self.spawn_timer {
                Some(timer) => Some(timer.after(self.pace(frame))),
                None => None,
            },
            ..self
        };
        if self.lost(frame) {
            running.ended()
        } else {
            running
        }
    }

    /// Whether the opening screen gives way to a game in this frame.
    pub open spec fn starts(self, frame: Frame) -> bool {
        self.phase == Phase::Splash && waited(self.splash_ms, frame.dt_ms) >= SPLASH_MS
    }

    /// The state after one frame.
    pub open spec fn after(self, frame: Frame, column: i32) -> GameView {
        let played = self.played(frame, column);
        if self.phase != Phase::Splash {
            played
        } else if self.starts(frame) {
            GameView { splash_ms: waited(self.splash_ms, frame.dt_ms), ..played }.begun(
                frame.now_ms,
            )
        } else {
            GameView { splash_ms: waited(self.splash_ms, frame.dt_ms), ..played }
        }
    }

    /// The state after the frames in `frames`, one after the other. An enemy
    /// that is due in one of them appears in the column that `columns` holds
    /// in the same place.
    pub open spec fn after_all(self, frames: Seq<Frame>, columns: Seq<i32>) -> GameView
        recommends
            frames.len() == columns.len(),
        decreases frames.len(),
    {
        if frames.len() == 0 {
            self
        } else {
            self.after_all(frames.drop_last(), columns.drop_last()).after(
                frames.last(),
                columns.last(),
            )
        }
    }

    /// What the step of one frame reports.
    pub open spec fn report(self, frame: Frame) -> StepReport {
        StepReport {
            started: self.starts(frame),
            fired: self.fires(frame),
            arrived: self.arrival_due(frame) && !self.lost(frame),
            kills: kills(self.fleet(frame), self.bolts(frame)) as usize,
            lost: self.lost(frame),
        }
    }

    /// The state after `interaction` on the menu button for `action` at time
    /// `now_ms`. Buttons count only while the game is over.
    pub open spec fn pressed(
        self,
        interaction: Interaction,
        action: MenuButtonAction,
        now_ms: u64,
    ) -> GameView {
        if self.phase != Phase::GameOver {
            self
        } else {
            match command_of(interaction, action) {
                MenuCommand::Play => self.begun(now_ms),
                MenuCommand::Show(page) => GameView { menu: page, ..self },
                MenuCommand::Stay => self,
                MenuCommand::Quit => self,
            }
        }
    }

    /// The state with one more enemy, standing at `position`. Enemies can
    /// be placed only during play.
    pub open spec fn with_enemy(self, position: Point) -> GameView {
        if self.phase == Phase::Playing {
            GameView {
                enemies: self.enemies.push(Enemy { position, speed: ENEMY_SPEED, alive: true }),
                ..self
            }
        } else {
            self
        }
    }
}

/// A game.
#[derive(Debug)]
pub struct Game {
    config: Config,
    phase: Phase,
    menu: MenuState,
    splash_ms: u32,
    player: Option<Player>,
    enemies: Vec<Enemy>,
    projectiles: Vec<Projectile>,
    explosions: Vec<Explosion>,
    score: Option<u64>,
    spawn_timer: Option<SpawnTimer>,
}

impl View for Game {
    type V = GameView;

    closed spec fn view(&self) -> GameView {
        GameView {
            config: self.config,
            phase: self.phase,
            menu: self.menu,
            splash_ms: self.splash_ms,
            player: self.player,
            enemies: self.enemies@,
            projectiles: self.projectiles@,
            explosions: self.explosions@,
            score: self.score,
            spawn_timer: self.spawn_timer,
        }
    }
}

/// Adds `gained` kills to the score.
pub fn raise_score(score: u64, gained: usize) -> (total: u64)
    ensures
        total == raised(score, gained as nat),
{
    score.saturating_add(gained as u64)
}

impl Game {
    /// Whether the state is one that a game can be in between two steps.
    pub open spec fn wf(&self) -> bool {
        self@.wf()
    }

    /// Opens the program: the opening screen is up and the field is empty.
    pub fn new(config: Config) -> (game: Game)
        ensures
            game@ == GameView::opening(config),
            game.wf(),
    {
        Game {
            config,
            phase: Phase::Splash,
            menu: MenuState::Disabled,
            splash_ms: 0,
            player: None,
            enemies: Vec::new(),
            projectiles: Vec::new(),
            explosions: Vec::new(),
            score: None,
            spawn_timer: None,
        }
    }

    /// The choices the game was opened with.
    pub fn config(&self) -> (config: Config)
        ensures
            config == self@.config,
    {
        self.config
    }

    /// The phase the program is in.
    pub fn phase(&self) -> (phase: Phase)
        ensures
            phase == self@.phase,
    {
        self.phase
    }

    /// The menu page that is up.
    pub fn menu(&self) -> (menu: MenuState)
        ensures
            menu == self@.menu,
    {
        self.menu
    }

    /// The ship, while there is one.
    pub fn player(&self) -> (player: Option<Player>)
        ensures
            player == self@.player,
    {
        self.player
    }

    /// The enemies on the field, oldest first.
    pub fn enemies(&self) -> (enemies: &Vec<Enemy>)
        ensures
            enemies@ == self@.enemies,
    {
        &self.enemies
    }

    /// The bolts in flight, oldest first.
    pub fn projectiles(&self) -> (projectiles: &Vec<Projectile>)
        ensures
            projectiles@ == self@.projectiles,
    {
        &self.projectiles
    }

    /// The blasts on the field, oldest first.
    pub fn explosions(&self) -> (explosions: &Vec<Explosion>)
        ensures
            explosions@ == self@.explosions,
    {
        &self.explosions
    }

    /// The score, while a game is played.
    pub fn score(&self) -> (score: Option<u64>)
        ensures
            score == self@.score,
    {
        self.score
    }

    /// The arrival countdown, while a game is played.
    pub fn spawn_timer(&self) -> (timer: Option<SpawnTimer>)
        ensures
            timer == self@.spawn_timer,
    {
        self.spawn_timer
    }

    /// Tells whether the state is one that a game can be in between two
    /// steps. Every game that was opened with [`Game::new`] and changed
    /// only through the methods of this type is.
    pub fn is_well_formed(&self) -> (ok: bool)
        ensures
            ok == self.wf(),
    {
        let playing: bool = self.phase == Phase::Playing;
        let over: bool = self.phase == Phase::GameOver;
        let menu_up: bool = self.menu != MenuState::Disabled;
        if playing != self.player.is_some() || playing != self.score.is_some() || playing
            != self.spawn_timer.is_some() || over != menu_up {
            return false;
        }
        if !playing && self.enemies.len() != 0 {
            return false;
        }
        if let Some(ship) = self.player {
            if ship.position.x < -PLAYER_REACH_X || ship.position.x > PLAYER_REACH_X
                || ship.position.y < -PLAYER_REACH_Y || ship.position.y > PLAYER_REACH_Y {
                return false;
            }
        }
        let mut i: usize = 0;
        while i < self.enemies.len()
            invariant
                i <= self.enemies.len(),
                forall|k: int| 0 <= k < i ==> (#[trigger] self.enemies@[k]).alive,
            decreases self.enemies.len() - i,
        {
            if !self.enemies[i].alive {
                return false;
            }
            i = i + 1;
        }
        true
    }

    /// Whether an enemy is due in a frame like `frame`.
    pub fn arrival_due(&self, frame: Frame) -> (due: bool)
        ensures
            due == self@.arrival_due(frame),
    {
        let pace: u64 = tick_step(self.config.time_base, frame.dt_ms);
        match self.spawn_timer {
            Some(timer) => timer.remaining as u64 <= pace,
            None => false,
        }
    }

    /// Begins a new game at time `now_ms`.
    fn begin(&mut self, now_ms: u64)
        ensures
            final(self)@ == old(self)@.begun(now_ms),
    {
        self.phase = Phase::Playing;
        self.menu = MenuState::Disabled;
        self.player = Some(Player::new(now_ms));
        self.score = Some(0);
        self.spawn_timer = Some(SpawnTimer::new());
    }

    /// Ends the game: clears what belongs to play and brings up the menu.
    fn end(&mut self)
        ensures
            final(self)@ == old(self)@.ended(),
    {
        self.phase = Phase::GameOver;
        self.menu = MenuState::Main;
        self.player = None;
        self.enemies.clear();
        self.score = None;
        self.spawn_timer = None;
    }

    /// Puts one more enemy on the field, at `position`. Returns whether it
    /// was placed, which it is exactly during play.
    pub fn place_enemy(&mut self, position: Point) -> (placed: bool)
        requires
            old(self).wf(),
        ensures
            placed == (old(self)@.phase == Phase::Playing),
            final(self)@ == old(self)@.with_enemy(position),
            final(self).wf(),
    {
        if self.phase == Phase::Playing {
            self.enemies.push(Enemy { position, speed: ENEMY_SPEED, alive: true });
            true
        } else {
            false
        }
    }

    /// Takes the game through one frame. An enemy that is due in this frame
    /// appears in column `column`, counted in whole world units; otherwise
    /// `column` is not looked at.
    ///
    /// If an enemy touches the ship, the game is over when the step returns:
    /// the ship, all enemies, the score and the arrival countdown are gone.
    pub fn step_with(&mut self, frame: Frame, column: i32) -> (report: StepReport)
        requires
            old(self).wf(),
        ensures
            final(self)@ == old(self)@.after(frame, column),
            report == old(self)@.report(frame),
            final(self).wf(),
            old(self)@.lost(frame) ==> {
                &&& final(self)@.phase == Phase::GameOver
                &&& final(self)@.player.is_none()
                &&& final(self)@.enemies.len() == 0
                &&& final(self)@.score.is_none()
                &&& final(self)@.spawn_timer.is_none()
            },
    {
        let ghost before = self@;
        let dt: u32 = frame.dt_ms;
        let pace: u64 = tick_step(self.config.time_base, dt);
        let vertical = self.config.vertical;
        let was_splash: bool = self.phase == Phase::Splash;

        // The ship answers the keys, then the gun answers the trigger.
        let intent = frame.input.intent();
        let mut pilot: Option<Player> = None;
        let mut shot: Option<Projectile> = None;
        if let Some(mut ship) = self.player {
            ship.advance(intent, dt);
            pilot = Some(ship);
            shot = ship.try_fire(frame.input.shoot, frame.now_ms);
            ship.animate(dt);
            self.player = Some(ship);
        }

        // Bolts fly, the arrival countdown moves, enemies steer.
        advance_projectiles(&mut self.projectiles, dt);
        let mut due: bool = false;
        if let Some(mut timer) = self.spawn_timer {
            due = timer.advance(pace);
            self.spawn_timer = Some(timer);
        }
        if let Some(ship) = pilot {
            advance_enemies(&mut self.enemies, ship.position, vertical, dt);
        }

        // The hit pass. It removes nothing; it marks, counts and leaves blasts.
        let mut blasts: Vec<Explosion> = Vec::new();
        let gained: usize = resolve_kills(&mut self.enemies, &self.projectiles, &mut blasts);
        let mut lost: bool = false;
        proof {
            lemma_shots_follow_positions(self.projectiles@, before.fleet(frame), self.enemies@);
        }
        if let Some(ship) = pilot {
            proof {
                lemma_rams_follow_positions(ship.position, before.fleet(frame), self.enemies@);
            }
            lost = resolve_rams(ship.position, &self.enemies, &mut blasts);
        }

        // Blasts age and animate; the new ones join them untouched.
        age_explosions(&mut self.explosions, pace);
        animate_explosions(&mut self.explosions, dt);
        self.explosions.append(&mut blasts);

        // The sweep: bolts that left the field or struck, enemies that were shot.
        sweep_projectiles(&mut self.projectiles, &self.enemies);
        animate_projectiles(&mut self.projectiles, dt);
        if let Some(bolt) = shot {
            self.projectiles.push(bolt);
        }
        assert(self.projectiles@ =~= before.bolts_after(frame));
        sweep_enemies(&mut self.enemies);
        if due {
            self.enemies.push(Enemy::arrive(column));
        }
        assert(self.enemies@ =~= before.fleet_after(frame, column));
        proof {
            broadcast use vstd::seq_lib::group_filter_ensures;

            reveal(Seq::filter);
            assert(forall|i: int|
                0 <= i < self.enemies@.len() ==> (#[trigger] self.enemies@[i]).alive);
        }

        // The score, and the end of the game.
        if let Some(score) = self.score {
            self.score = Some(raise_score(score, gained));
        }
        if lost {
            self.end();
        }

        // The opening screen counts its time and gives way to a game.
        let mut started: bool = false;
        if was_splash {
            self.splash_ms = self.splash_ms.saturating_add(dt);
            if self.splash_ms >= SPLASH_MS {
                started = true;
                self.begin(frame.now_ms);
            }
        }
        StepReport { started, fired: shot.is_some(), arrived: due && !lost, kills: gained, lost }
    }

    /// Takes the game through one frame, drawing the column of an enemy that
    /// is due at random.
    pub fn step(&mut self, frame: Frame) -> (report: StepReport)
        requires
            old(self).wf(),
        ensures
            exists|column: i32|
                SPAWN_X_MIN <= column < SPAWN_X_MAX && final(self)@ == #[trigger] old(self)@.after(
                    frame,
                    column,
                ),
            report == old(self)@.report(frame),
            final(self).wf(),
    {
        let column: i32 = if self.arrival_due(frame) {
            draw_column()
        } else {
            SPAWN_X_MIN
        };
        self.step_with(frame, column)
    }

    /// Handles `interaction` on the menu button for `action` at time
    /// `now_ms`. Returns whether the program is asked to quit.
    ///
    /// Buttons count only while the game is over, and only a press counts.
    /// Play begins a new game; the page buttons change the page that is up.
    pub fn press(&mut self, interaction: Interaction, action: MenuButtonAction, now_ms: u64) -> (quit:
        bool)
        requires
            old(self).wf(),
        ensures
            final(self)@ == old(self)@.pressed(interaction, action, now_ms),
            quit == (old(self)@.phase == Phase::GameOver && command_of(interaction, action)
                == MenuCommand::Quit),
            final(self).wf(),
    {
        if self.phase != Phase::GameOver {
            return false;
        }
        match menu_command(interaction, action) {
            MenuCommand::Quit => true,
            MenuCommand::Stay => false,
            MenuCommand::Show(page) => {
                self.menu = page;
                false
            },
            MenuCommand::Play => {
                self.begin(now_ms);
                false
            },
        }
    }
}

} // verus!
