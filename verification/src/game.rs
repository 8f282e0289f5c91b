//! The simulation controller: it owns the player and the obstacle pool,
//! advances them one tick at a time and keeps the score and the game's state.

use vstd::prelude::*;
use crate::config::{ConfigError, GameConfig};
use crate::constants::{GameState, PLAYER_SPAWN_X, PLAYER_SPAWN_Y};
use crate::fixed::{sat_inc, sat_scale, sat_sub, saturate, saturate_u64};
use crate::obstacle::{Obstacle, ObstacleView};
use crate::player::{Player, PlayerView};
use crate::ramp::{carried, due, gathered};
use crate::vector::Vector2;

verus! {

/// The obstacle of pool slot `slot` as a session starts: it stands on the
/// arena's floor, `slot` staggers to the right of the arena's right edge.
pub open spec fn slot_spawn(config: GameConfig, slot: int) -> ObstacleView {
    ObstacleView::spawn(
        config.arena_width,
        saturate(config.arena_height - config.obstacle_size),
        config.obstacle_size,
        saturate(slot * config.obstacle_stagger),
    ).set_speed_increase_rate(config.speed_increment)
}

/// The first obstacle at or after slot `from` whose share of the tick ends
/// inside the player's bounding box; the pool's length if there is none.
pub open spec fn first_hit_from(
    obstacles: Seq<ObstacleView>,
    player: PlayerView,
    ramp: bool,
    from: int,
) -> int
    decreases obstacles.len() - from,
{
    if from < 0 || from >= obstacles.len() {
        obstacles.len() as int
    } else if obstacles[from].advance(ramp).bounds().overlaps(player.bounds()) {
        from
    } else {
        first_hit_from(obstacles, player, ramp, from + 1)
    }
}

/// How many of the first `count` obstacles leave the screen on their next
/// step of motion.
pub open spec fn dodged(obstacles: Seq<ObstacleView>, count: int) -> nat
    decreases count,
{
    if count <= 0 {
        0
    } else {
        let last: nat = if obstacles[count - 1].leaves_screen() {
            1
        } else {
            0
        };
        dodged(obstacles, count - 1) + last
    }
}

/// What a tick hands to whoever draws the game.
pub struct Snapshot {
    pub state: GameState,
    pub score: u64,
    pub player_position: Vector2,
    /// One position per pool slot, in the pool's order.
    pub obstacle_positions: Vec<Vector2>,
}

/// What a [`Snapshot`] is, as a plain value.
pub struct SnapshotView {
    pub state: GameState,
    pub score: u64,
    pub player_position: Vector2,
    pub obstacle_positions: Seq<Vector2>,
}

impl View for Snapshot {
    type V = SnapshotView;

    open spec fn view(&self) -> SnapshotView {
        SnapshotView {
            state: self.state,
            score: self.score,
            player_position: self.player_position,
            obstacle_positions: self.obstacle_positions@,
        }
    }
}

/// What a [`MyGame`] is, as a plain value.
pub struct GameView {
    pub config: GameConfig,
    pub player: PlayerView,
    pub obstacles: Seq<ObstacleView>,
    /// Time gathered towards the next speed increase.
    pub time_elapsed: u64,
    pub state: GameState,
    /// Obstacles that have left the screen since the session started.
    pub score: u64,
}

impl GameView {
    /// The pool slot `slot` holds an obstacle of this game: of the configured
    /// size and speed increase rate, with the slot's spawn point.
    pub open spec fn slot_wf(self, slot: int) -> bool {
        let o = self.obstacles[slot];
        &&& o.wf()
        &&& o.width == self.config.obstacle_size
        &&& o.speed_increase_rate == self.config.speed_increment
        &&& o.initial_location == slot_spawn(self.config, slot).initial_location
    }

    /// A game has an accepted configuration, a well-formed player and a pool
    /// of the configured size whose every slot holds an obstacle of the game.
    pub open spec fn wf(self) -> bool {
        &&& self.config.valid()
        &&& self.player.wf()
        &&& self.obstacles.len() == self.config.pool_size
        &&& forall|slot: int| 0 <= slot < self.obstacles.len() ==> #[trigger] self.slot_wf(slot)
    }

    /// The game as a session starts, with the given player.
    pub open spec fn fresh(config: GameConfig, player: PlayerView, pool_size: nat) -> GameView {
        GameView {
            config,
            player: player.set_location(PLAYER_SPAWN_X, PLAYER_SPAWN_Y),
            obstacles: Seq::new(pool_size, |slot: int| slot_spawn(config, slot)),
            time_elapsed: 0,
            state: GameState::Running,
            score: 0,
        }
    }

    /// The game as constructed from `config`.
    pub open spec fn initial(config: GameConfig) -> GameView {
        GameView::fresh(config, PlayerView::initial(), config.pool_size as nat)
    }

    /// A new session: the player is back at its spawn point, every obstacle
    /// is a fresh one at its slot's spawn point, score and clock are zero and
    /// the game runs.
    pub open spec fn reset(self) -> GameView {
        GameView::fresh(self.config, self.player, self.obstacles.len())
    }

    /// Whether a speed increase is due on a tick on which `dt` has passed:
    /// the clock has gone past the ramp interval.
    pub open spec fn ramp_due(self, dt: u64) -> bool {
        due(self.time_elapsed, dt, self.config.ramp_interval)
    }

    /// The player after its share of a tick.
    pub open spec fn next_player(self, jump_pressed: bool, arena_height: i64) -> PlayerView {
        self.player.step(self.config.gravity, arena_height, jump_pressed, self.config.jump_force)
    }

    /// The slot of the obstacle that ends a running tick by hitting the
    /// player; the pool's length on a tick without a hit.
    pub open spec fn hit_slot(self, dt: u64, jump_pressed: bool, arena_height: i64) -> int {
        first_hit_from(
            self.obstacles,
            self.next_player(jump_pressed, arena_height),
            self.ramp_due(dt),
            0,
        )
    }

    /// Whether a running tick ends with the player hit.
    pub open spec fn collides(self, dt: u64, jump_pressed: bool, arena_height: i64) -> bool {
        self.hit_slot(dt, jump_pressed, arena_height) < self.obstacles.len()
    }

    /// How many obstacles a running tick moves: all up to and including the
    /// one that hits the player, the whole pool if none does.
    pub open spec fn processed(self, dt: u64, jump_pressed: bool, arena_height: i64) -> int {
        if self.collides(dt, jump_pressed, arena_height) {
            self.hit_slot(dt, jump_pressed, arena_height) + 1
        } else {
            self.obstacles.len() as int
        }
    }

    /// One tick of a running game. The player takes its step. Then the
    /// obstacles take theirs in the pool's order, each scoring a point if it
    /// left the screen and speeding up if a speed increase is due, until one
    /// hits the player: that ends the game, and the obstacles behind it stay
    /// as they were. The clock gathers `dt`; on a tick without a hit a due
    /// speed increase takes one ramp interval off it.
    pub open spec fn advance(self, dt: u64, jump_pressed: bool, arena_height: i64) -> GameView {
        let ramp = self.ramp_due(dt);
        let collided = self.collides(dt, jump_pressed, arena_height);
        let processed = self.processed(dt, jump_pressed, arena_height);
        GameView {
            config: self.config,
            player: self.next_player(jump_pressed, arena_height),
            obstacles: Seq::new(
                self.obstacles.len(),
                |slot: int|
                    if slot < processed {
                        self.obstacles[slot].advance(ramp)
                    } else {
                        self.obstacles[slot]
                    },
            ),
            time_elapsed: if collided {
                gathered(self.time_elapsed, dt)
            } else {
                carried(self.time_elapsed, dt, self.config.ramp_interval)
            },
            state: if collided {
                GameState::GameOver
            } else {
                GameState::Running
            },
            score: saturate_u64(self.score + dodged(self.obstacles, processed)),
        }
    }

    /// One tick. A running game advances; a game that is over waits for the
    /// restart key and then starts a new session.
    pub open spec fn tick(
        self,
        dt: u64,
        jump_pressed: bool,
        restart_pressed: bool,
        arena_height: i64,
    ) -> GameView {
        match self.state {
            GameState::Running => self.advance(dt, jump_pressed, arena_height),
            GameState::GameOver => if restart_pressed {
                self.reset()
            } else {
                self
            },
        }
    }

    /// What the game shows after a tick.
    pub open spec fn snapshot(self) -> SnapshotView {
        SnapshotView {
            state: self.state,
            score: self.score,
            player_position: self.player.location,
            obstacle_positions: Seq::new(
                self.obstacles.len(),
                |slot: int| self.obstacles[slot].location,
            ),
        }
    }
}

/// A fresh session is well formed whenever the configuration is accepted, the
/// player is well formed and the pool has the configured size.
pub proof fn lemma_fresh_wf(config: GameConfig, player: PlayerView)
    requires
        config.valid(),
        player.wf(),
    ensures
        GameView::fresh(config, player, config.pool_size as nat).wf(),
{
    let g = GameView::fresh(config, player, config.pool_size as nat);
    assert forall|slot: int| 0 <= slot < g.obstacles.len() implies #[trigger] g.slot_wf(slot) by {
    }
}

/// Every tick keeps a well-formed game well formed.
pub proof fn lemma_tick_preserves_wf(
    game: GameView,
    dt: u64,
    jump_pressed: bool,
    restart_pressed: bool,
    arena_height: i64,
)
    requires
        game.wf(),
    ensures
        game.tick(dt, jump_pressed, restart_pressed, arena_height).wf(),
        game.tick(dt, jump_pressed, restart_pressed, arena_height).config == game.config,
{
    let next = game.tick(dt, jump_pressed, restart_pressed, arena_height);
    match game.state {
        GameState::Running => {
            assert forall|slot: int| 0 <= slot < next.obstacles.len() implies #[trigger] next.slot_wf(
                slot,
            ) by {
                assert(game.slot_wf(slot));
            }
        },
        GameState::GameOver => {
            if restart_pressed {
                lemma_fresh_wf(game.config, game.player);
            }
        },
    }
}

/// The game session: the player, the obstacle pool, the clock of the speed
/// ramp, the score and the state.
pub struct MyGame {
    config: GameConfig,
    player: Player,
    obstacles: Vec<Obstacle>,
    time_elapsed: u64,
    state: GameState,
    score: u64,
}

impl View for MyGame {
    type V = GameView;

    closed spec fn view(&self) -> GameView {
        GameView {
            config: self.config,
            player: self.player@,
            obstacles: Seq::new(self.obstacles@.len(), |slot: int| self.obstacles@[slot]@),
            time_elapsed: self.time_elapsed,
            state: self.state,
            score: self.score,
        }
    }
}

/// Builds the fresh obstacle of a pool slot.
fn spawn_obstacle(config: &GameConfig, slot: usize) -> (obstacle: Obstacle)
    requires
        config.valid(),
    ensures
        obstacle@ == slot_spawn(*config, slot as int),
{
    let mut obstacle = Obstacle::new(
        config.arena_width,
        sat_sub(config.arena_height, config.obstacle_size),
        config.obstacle_size,
        sat_scale(slot, config.obstacle_stagger),
    );
    obstacle.set_speed_increase_rate(config.speed_increment);
    obstacle
}

impl MyGame {
    /// Starts a session from `config`, or refuses the configuration.
    pub fn new(config: GameConfig) -> (result: Result<MyGame, ConfigError>)
        ensures
            result is Ok <==> config.valid(),
            match result {
                Ok(game) => game@ == GameView::initial(config) && game@.wf(),
                Err(e) => config.error() == Some(e),
            },
    {
        match config.validate() {
            Err(e) => Err(e),
            Ok(()) => {
                let player = Player::new();

                let mut obstacles: Vec<Obstacle> = Vec::new();
                let mut i: usize = 0;
                while i < config.pool_size
                    invariant
                        config.valid(),
                        i <= config.pool_size,
                        obstacles@.len() == i,
                        forall|slot: int|
                            0 <= slot < i ==> (#[trigger] obstacles@[slot])@ == slot_spawn(
                                config,
                                slot,
                            ),
                    decreases config.pool_size - i,
                {
                    obstacles.push(spawn_obstacle(&config, i));
                    i += 1;
                }

                let mut game = MyGame {
                    config,
                    player,
                    obstacles,
                    time_elapsed: 0,
                    state: GameState::Running,
                    score: 0,
                };
                proof {
                    let g = game@;
                    assert forall|slot: int| 0 <= slot < g.obstacles.len() implies #[trigger] g.slot_wf(
                        slot,
                    ) by {
                        assert(g.obstacles[slot] == game.obstacles@[slot]@);
                    }
                }

                game.reset();

                Ok(game)
            },
        }
    }

    /// Starts a new session: see [`GameView::reset`].
    pub fn reset(&mut self)
        requires
            old(self)@.wf(),
        ensures
            final(self)@ == old(self)@.reset(),
            final(self)@.wf(),
    {
        self.player.set_location(PLAYER_SPAWN_X, PLAYER_SPAWN_Y);

        let count: usize = self.obstacles.len();
        let mut i: usize = 0;
        while i < count
            invariant
                i <= count,
                count == self.obstacles@.len(),
                count == old(self).obstacles@.len(),
                self.config == old(self).config,
                self.config.valid(),
                self.player@ == old(self).player@.set_location(PLAYER_SPAWN_X, PLAYER_SPAWN_Y),
                forall|slot: int|
                    0 <= slot < i ==> (#[trigger] self.obstacles@[slot])@ == slot_spawn(
                        self.config,
                        slot,
                    ),
            decreases count - i,
        {
            let fresh = spawn_obstacle(&self.config, i);
            self.obstacles.set(i, fresh);
            i += 1;
        }

        self.time_elapsed = 0;
        self.score = 0;
        self.state = GameState::Running;

        proof {
            assert(self@.obstacles =~= old(self)@.reset().obstacles);
            lemma_fresh_wf(old(self)@.config, old(self)@.player);
        }
    }

    /// Advances the game by one tick and reports what to draw.
    ///
    /// `dt` is the time that has passed since the last tick; `jump_pressed`
    /// and `restart_pressed` say whether the key went down on this tick;
    /// `arena_height` is the current height of the drawable area.
    pub fn tick(
        &mut self,
        dt: u64,
        jump_pressed: bool,
        restart_pressed: bool,
        arena_height: i64,
    ) -> (snapshot: Snapshot)
        requires
            old(self)@.wf(),
        ensures
            final(self)@ == old(self)@.tick(dt, jump_pressed, restart_pressed, arena_height),
            final(self)@.wf(),
            snapshot@ == final(self)@.snapshot(),
    {
        let ghost before = self@;
        proof {
            lemma_tick_preserves_wf(before, dt, jump_pressed, restart_pressed, arena_height);
        }
        match self.state {
            GameState::Running => {
                let gravity = Vector2 { x: 0, y: self.config.gravity };
                self.player.apply_force(&gravity);
                self.player.run();
                self.player.hit_ground(arena_height);

                if jump_pressed {
                    let jump_force = self.config.jump_force;
                    self.player.jump(&jump_force);
                }
                let clock: u64 = self.time_elapsed.saturating_add(dt);
                let increase_speed: bool = clock > self.config.ramp_interval;
                self.time_elapsed = clock;

                let ghost player = before.next_player(jump_pressed, arena_height);
                let count: usize = self.obstacles.len();
                let mut i: usize = 0;
                while i < count
                    invariant
                        i <= count,
                        count == self.obstacles@.len(),
                        count == before.obstacles.len(),
                        before == old(self)@,
                        before.state == GameState::Running,
                        before.wf(),
                        before.advance(dt, jump_pressed, arena_height).wf(),
                        self.config == before.config,
                        self.player@ == player,
                        player == before.next_player(jump_pressed, arena_height),
                        self.state == GameState::Running,
                        self.time_elapsed == clock,
                        clock == gathered(before.time_elapsed, dt),
                        increase_speed == before.ramp_due(dt),
                        self.score == saturate_u64(
                            before.score + dodged(before.obstacles, i as int),
                        ),
                        before.hit_slot(dt, jump_pressed, arena_height) == first_hit_from(
                            before.obstacles,
                            player,
                            increase_speed,
                            i as int,
                        ),
                        forall|slot: int|
                            0 <= slot < i ==> (#[trigger] self.obstacles@[slot])@
                                == before.obstacles[slot].advance(increase_speed),
                        forall|slot: int|
                            i <= slot < count ==> (#[trigger] self.obstacles@[slot])@
                                == before.obstacles[slot],
                    decreases count - i,
                {
                    let mut obst = self.obstacles[i];
                    obst.run();
                    if obst.is_off_screen() {
                        obst.reset_location();
                        self.score = sat_inc(self.score);
                    }
                    if increase_speed {
                        obst.increase_speed();
                    }
                    let hit = obst.is_hitting_player(&self.player);
                    self.obstacles.set(i, obst);
                    if hit {
                        self.state = GameState::GameOver;
                        proof {
                            let after = before.advance(dt, jump_pressed, arena_height);
                            assert(before.hit_slot(dt, jump_pressed, arena_height) == i);
                            assert(self@.obstacles =~= after.obstacles);
                        }
                        return self.snapshot();
                    }
                    i += 1;
                }
                if increase_speed {
                    self.time_elapsed = clock - self.config.ramp_interval;
                }
                proof {
                    let after = before.advance(dt, jump_pressed, arena_height);
                    assert(before.hit_slot(dt, jump_pressed, arena_height) == count);
                    assert(self@.obstacles =~= after.obstacles);
                }
            },
            GameState::GameOver => {
                if restart_pressed {
                    self.reset();
                }
            },
        }

        self.snapshot()
    }

    /// What the game shows now: see [`GameView::snapshot`].
    pub fn snapshot(&self) -> (snapshot: Snapshot)
        ensures
            snapshot@ == self@.snapshot(),
    {
        let mut obstacle_positions: Vec<Vector2> = Vec::new();
        let mut i: usize = 0;
        while i < self.obstacles.len()
            invariant
                i <= self.obstacles@.len(),
                obstacle_positions@.len() == i,
                forall|slot: int|
                    0 <= slot < i ==> #[trigger] obstacle_positions@[slot]
                        == self.obstacles@[slot]@.location,
            decreases self.obstacles@.len() - i,
        {
            obstacle_positions.push(self.obstacles[i].get_location());
            i += 1;
        }
        proof {
            assert(obstacle_positions@ =~= self@.snapshot().obstacle_positions);
        }
        Snapshot {
            state: self.state,
            score: self.score,
            player_position: self.player.get_location(),
            obstacle_positions,
        }
    }

    pub fn state(&self) -> (state: GameState)
        ensures
            state == self@.state,
    {
        self.state
    }

    pub fn score(&self) -> (score: u64)
        ensures
            score == self@.score,
    {
        self.score
    }

    /// Time gathered towards the next speed increase.
    pub fn time_elapsed(&self) -> (time: u64)
        ensures
            time == self@.time_elapsed,
    {
        self.time_elapsed
    }

    pub fn config(&self) -> (config: GameConfig)
        ensures
            config == self@.config,
    {
        self.config
    }

    pub fn player(&self) -> (player: &Player)
        ensures
            player@ == self@.player,
    {
        &self.player
    }

    /// The pool, one obstacle per slot.
    pub fn obstacles(&self) -> (obstacles: &Vec<Obstacle>)
        ensures
            obstacles@.len() == self@.obstacles.len(),
            forall|slot: int|
                0 <= slot < obstacles@.len() ==> (#[trigger] obstacles@[slot])@
                    == self@.obstacles[slot],
    {
        &self.obstacles
    }
}

} // verus!
