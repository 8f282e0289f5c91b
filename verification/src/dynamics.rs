//! What holds of the game from one tick to the next.

use vstd::prelude::*;
use crate::collision::lemma_overlap_symmetric;
use crate::constants::{GameState, OBSTACLE_VELOCITY, PLAYER_SPAWN_X, PLAYER_SPAWN_Y};
use crate::fixed::saturate_u64;
use crate::game::{dodged, first_hit_from, slot_spawn, GameView};
use crate::obstacle::ObstacleView;
use crate::player::PlayerView;
use crate::vector::Vector2;

verus! {

/// Gravity never slows a fall: on a step without ground contact, taken under
/// a gravity that is not negative and with no upward impulse pending, the
/// vertical velocity does not decrease. A step with ground contact ends at
/// rest. (The impulse of a jump is pending until the step after the jump.)
pub proof fn lemma_gravity_is_monotonic(
    player: PlayerView,
    gravity: i64,
    arena_height: i64,
    jump_pressed: bool,
    jump_force: Vector2,
)
    requires
        gravity >= 0,
        player.acceleration.y >= 0,
    ensures
        !player.lands(gravity, arena_height) ==> player.step(
            gravity,
            arena_height,
            jump_pressed,
            jump_force,
        ).velocity.y >= player.velocity.y,
        player.lands(gravity, arena_height) ==> player.step(
            gravity,
            arena_height,
            jump_pressed,
            jump_force,
        ).velocity.y == 0,
{
}

/// Ground contact puts the player onto the floor, at rest and ready to jump,
/// as long as the floor is not so far up that the player's top edge would
/// leave the range of `i64`. Resolving the contact a second time changes
/// nothing.
pub proof fn lemma_landing_grounds(player: PlayerView, arena_height: i64)
    ensures
        player.below_ground(arena_height) && arena_height - player.height >= i64::MIN
            ==> player.hit_ground(arena_height).grounded(arena_height) && !player.hit_ground(
            arena_height,
        ).is_jumping,
        player.hit_ground(arena_height).hit_ground(arena_height) == player.hit_ground(
            arena_height,
        ),
{
}

/// A grounded player with no impulse pending is grounded again after its
/// step, whether or not the jump key is pressed; and unless it is pressed, no
/// impulse is pending after the step either.
pub proof fn lemma_grounded_stays_grounded(
    player: PlayerView,
    gravity: i64,
    arena_height: i64,
    jump_pressed: bool,
    jump_force: Vector2,
)
    requires
        player.wf(),
        gravity >= 0,
        player.grounded(arena_height),
        player.acceleration == Vector2::zero(),
    ensures
        player.step(gravity, arena_height, jump_pressed, jump_force).grounded(arena_height),
        !jump_pressed ==> player.step(gravity, arena_height, jump_pressed, jump_force).acceleration
            == Vector2::zero(),
{
}

/// A jump is taken at most once per ground contact: a player that is jumping
/// ignores the jump, a jump leaves the player jumping, and so a second jump
/// after a first changes nothing, whatever its impulse.
pub proof fn lemma_jump_once(player: PlayerView, first: Vector2, second: Vector2)
    ensures
        player.is_jumping ==> player.jump(first) == player,
        player.jump(first).is_jumping,
        player.jump(first).jump(second) == player.jump(first),
{
}

/// Only ground contact ends a jump: a player that is jumping before its step
/// and not after it has landed on that step.
pub proof fn lemma_only_landing_ends_jump(
    player: PlayerView,
    gravity: i64,
    arena_height: i64,
    jump_pressed: bool,
    jump_force: Vector2,
)
    requires
        player.is_jumping,
        !player.step(gravity, arena_height, jump_pressed, jump_force).is_jumping,
    ensures
        player.lands(gravity, arena_height),
{
}

/// The player hits the obstacle exactly when the obstacle hits the player.
pub proof fn lemma_hit_is_mutual(player: PlayerView, obstacle: ObstacleView)
    ensures
        player.bounds().overlaps(obstacle.bounds()) == obstacle.bounds().overlaps(player.bounds()),
{
    lemma_overlap_symmetric(player.bounds(), obstacle.bounds());
}

/// An obstacle that stays on the screen moves strictly to the left.
pub proof fn lemma_obstacle_moves_left(obstacle: ObstacleView, ramp: bool)
    requires
        obstacle.wf(),
        !obstacle.leaves_screen(),
    ensures
        obstacle.advance(ramp).location.x < obstacle.location.x,
        obstacle.advance(ramp).location.x == obstacle.location.x + obstacle.velocity.x,
{
}

/// An obstacle that leaves the screen is back at its spawn point when the
/// tick ends, and one that has left the screen leaves it on its next step.
pub proof fn lemma_obstacle_recycles(obstacle: ObstacleView, ramp: bool)
    ensures
        obstacle.leaves_screen() ==> obstacle.advance(ramp).location == obstacle.initial_location,
        obstacle.wf() && obstacle.is_off_screen() ==> obstacle.leaves_screen(),
{
}

/// An obstacle's share of a tick changes its location and, on a speed
/// increase, its velocity, which only grows in magnitude; nothing else.
pub proof fn lemma_obstacle_only_speeds_up(obstacle: ObstacleView, ramp: bool)
    requires
        obstacle.wf(),
    ensures
        obstacle.advance(ramp).wf(),
        obstacle.advance(ramp).velocity.x <= obstacle.velocity.x,
        !ramp ==> obstacle.advance(ramp).velocity == obstacle.velocity,
        obstacle.advance(ramp) == (ObstacleView {
            location: obstacle.advance(ramp).location,
            velocity: obstacle.advance(ramp).velocity,
            ..obstacle
        }),
{
}

/// If exactly one of the first `count` obstacles leaves the screen, exactly
/// one is dodged.
pub proof fn lemma_dodged_one(obstacles: Seq<ObstacleView>, count: int, slot: int)
    requires
        forall|other: int|
            0 <= other < count ==> (#[trigger] obstacles[other].leaves_screen() <==> other == slot),
    ensures
        dodged(obstacles, count) == if 0 <= slot < count {
            1nat
        } else {
            0nat
        },
    decreases count,
{
    if count > 0 {
        lemma_dodged_one(obstacles, count - 1, slot);
    }
}

/// The hit that ends a tick is the first in the pool's order: no obstacle
/// before it hits the player, and it does, unless it is the pool's length.
pub proof fn lemma_first_hit(
    obstacles: Seq<ObstacleView>,
    player: PlayerView,
    ramp: bool,
    from: int,
)
    requires
        0 <= from <= obstacles.len(),
    ensures
        from <= first_hit_from(obstacles, player, ramp, from) <= obstacles.len(),
        forall|slot: int|
            from <= slot < first_hit_from(obstacles, player, ramp, from) ==> !(
            #[trigger] obstacles[slot]).advance(ramp).bounds().overlaps(player.bounds()),
        first_hit_from(obstacles, player, ramp, from) < obstacles.len() ==> obstacles[first_hit_from(
            obstacles,
            player,
            ramp,
            from,
        )].advance(ramp).bounds().overlaps(player.bounds()),
    decreases obstacles.len() - from,
{
    if from < obstacles.len() && !obstacles[from].advance(ramp).bounds().overlaps(player.bounds()) {
        lemma_first_hit(obstacles, player, ramp, from + 1);
    }
}

/// On a running tick the player's fall obeys gravity: see
/// [`lemma_gravity_is_monotonic`].
pub proof fn lemma_tick_gravity(
    game: GameView,
    dt: u64,
    jump_pressed: bool,
    restart_pressed: bool,
    arena_height: i64,
)
    requires
        game.wf(),
        game.state == GameState::Running,
        game.player.acceleration.y >= 0,
    ensures
        !game.player.lands(game.config.gravity, arena_height) ==> game.tick(
            dt,
            jump_pressed,
            restart_pressed,
            arena_height,
        ).player.velocity.y >= game.player.velocity.y,
        game.player.lands(game.config.gravity, arena_height) ==> game.tick(
            dt,
            jump_pressed,
            restart_pressed,
            arena_height,
        ).player.velocity.y == 0,
{
    lemma_gravity_is_monotonic(
        game.player,
        game.config.gravity,
        arena_height,
        jump_pressed,
        game.config.jump_force,
    );
}

/// A running tick on which the player lands leaves it grounded, as long as
/// the floor is within the player's reach (see [`lemma_landing_grounds`]);
/// unless the jump key is pressed on that tick, the player is then ready to
/// jump and no impulse is pending.
pub proof fn lemma_tick_landing(
    game: GameView,
    dt: u64,
    jump_pressed: bool,
    restart_pressed: bool,
    arena_height: i64,
)
    requires
        game.state == GameState::Running,
        game.player.lands(game.config.gravity, arena_height),
        arena_height - game.player.height >= i64::MIN,
    ensures
        game.tick(dt, jump_pressed, restart_pressed, arena_height).player.grounded(arena_height),
        !jump_pressed ==> {
            &&& !game.tick(dt, jump_pressed, restart_pressed, arena_height).player.is_jumping
            &&& game.tick(dt, jump_pressed, restart_pressed, arena_height).player.acceleration
                == Vector2::zero()
        },
{
}

/// On a running tick a grounded player with no impulse pending stays
/// grounded: see [`lemma_grounded_stays_grounded`].
pub proof fn lemma_tick_grounded(
    game: GameView,
    dt: u64,
    jump_pressed: bool,
    restart_pressed: bool,
    arena_height: i64,
)
    requires
        game.wf(),
        game.state == GameState::Running,
        game.player.grounded(arena_height),
        game.player.acceleration == Vector2::zero(),
    ensures
        game.tick(dt, jump_pressed, restart_pressed, arena_height).player.grounded(arena_height),
        !jump_pressed ==> game.tick(
            dt,
            jump_pressed,
            restart_pressed,
            arena_height,
        ).player.acceleration == Vector2::zero(),
{
    lemma_grounded_stays_grounded(
        game.player,
        game.config.gravity,
        arena_height,
        jump_pressed,
        game.config.jump_force,
    );
}

/// Pressing the jump key while airborne is without effect: a tick on which a
/// jumping player does not land ends the same with the key pressed or not.
pub proof fn lemma_tick_ignores_jump_in_air(
    game: GameView,
    dt: u64,
    restart_pressed: bool,
    arena_height: i64,
)
    requires
        game.player.is_jumping,
        !game.player.lands(game.config.gravity, arena_height),
    ensures
        game.tick(dt, true, restart_pressed, arena_height) == game.tick(
            dt,
            false,
            restart_pressed,
            arena_height,
        ),
{
    assert(game.next_player(true, arena_height) == game.next_player(false, arena_height));
}

/// What a running tick does to the pool. Every obstacle up to the one that
/// hits the player takes its share of the tick: one that stays on the screen
/// moves strictly to the left, one that leaves it is back at its spawn point.
/// The obstacles behind a hit stay as they were.
pub proof fn lemma_tick_moves_pool(
    game: GameView,
    dt: u64,
    jump_pressed: bool,
    restart_pressed: bool,
    arena_height: i64,
    slot: int,
)
    requires
        game.wf(),
        game.state == GameState::Running,
        0 <= slot < game.obstacles.len(),
    ensures
        ({
            let next = game.tick(dt, jump_pressed, restart_pressed, arena_height);
            let old_obstacle = game.obstacles[slot];
            let new_obstacle = next.obstacles[slot];
            if slot < game.processed(dt, jump_pressed, arena_height) {
                &&& new_obstacle == old_obstacle.advance(game.ramp_due(dt))
                &&& old_obstacle.leaves_screen() ==> new_obstacle.location
                    == old_obstacle.initial_location
                &&& !old_obstacle.leaves_screen() ==> new_obstacle.location.x
                    < old_obstacle.location.x
            } else {
                new_obstacle == old_obstacle
            }
        }),
{
    assert(game.slot_wf(slot));
    if !game.obstacles[slot].leaves_screen() {
        lemma_obstacle_moves_left(game.obstacles[slot], game.ramp_due(dt));
    }
}

/// The score counts the obstacles that leave the screen. On a running tick
/// it grows by one for each obstacle that leaves the screen on its share of
/// the tick, and sticks at the largest `u64`; it never falls. A game that is
/// over keeps its score until a restart sets it to zero.
pub proof fn lemma_tick_scores(
    game: GameView,
    dt: u64,
    jump_pressed: bool,
    restart_pressed: bool,
    arena_height: i64,
)
    ensures
        game.state == GameState::Running ==> game.tick(
            dt,
            jump_pressed,
            restart_pressed,
            arena_height,
        ).score == saturate_u64(
            game.score + dodged(game.obstacles, game.processed(dt, jump_pressed, arena_height)),
        ) && game.tick(dt, jump_pressed, restart_pressed, arena_height).score >= game.score,
        game.state == GameState::GameOver ==> game.tick(
            dt,
            jump_pressed,
            restart_pressed,
            arena_height,
        ).score == if restart_pressed {
            0
        } else {
            game.score
        },
{
}

/// With a pool of one obstacle, a running tick on which the obstacle leaves
/// the screen puts it back at its spawn point and adds exactly one to a score
/// below the largest `u64`; any other running tick leaves the score alone.
pub proof fn lemma_tick_recycles_single(
    game: GameView,
    dt: u64,
    jump_pressed: bool,
    restart_pressed: bool,
    arena_height: i64,
)
    requires
        game.wf(),
        game.state == GameState::Running,
        game.obstacles.len() == 1,
        game.score < u64::MAX,
    ensures
        ({
            let next = game.tick(dt, jump_pressed, restart_pressed, arena_height);
            if game.obstacles[0].leaves_screen() {
                next.score == game.score + 1 && next.obstacles[0].location
                    == game.obstacles[0].initial_location
            } else {
                next.score == game.score
            }
        }),
{
    lemma_first_hit(
        game.obstacles,
        game.next_player(jump_pressed, arena_height),
        game.ramp_due(dt),
        0,
    );
    lemma_dodged_one(
        game.obstacles,
        1,
        if game.obstacles[0].leaves_screen() {
            0
        } else {
            -1
        },
    );
    lemma_tick_moves_pool(game, dt, jump_pressed, restart_pressed, arena_height, 0);
}

/// A restart starts a new session: from a game that is over, a tick with the
/// restart key pressed leaves a running game with score and clock at zero,
/// the player at its spawn point and every obstacle at its slot's spawn
/// point, with the velocity of a fresh obstacle. Without the key the game
/// stays as it is.
pub proof fn lemma_restart(
    game: GameView,
    dt: u64,
    jump_pressed: bool,
    arena_height: i64,
)
    requires
        game.wf(),
        game.state == GameState::GameOver,
    ensures
        game.tick(dt, jump_pressed, false, arena_height) == game,
        ({
            let next = game.tick(dt, jump_pressed, true, arena_height);
            &&& next.state == GameState::Running
            &&& next.score == 0
            &&& next.time_elapsed == 0
            &&& next.player.location == (Vector2 { x: PLAYER_SPAWN_X, y: PLAYER_SPAWN_Y })
            &&& next.obstacles.len() == game.obstacles.len()
            &&& forall|slot: int|
                0 <= slot < next.obstacles.len() ==> {
                    &&& (#[trigger] next.obstacles[slot]).location
                        == game.obstacles[slot].initial_location
                    &&& next.obstacles[slot] == slot_spawn(game.config, slot)
                    &&& next.obstacles[slot].velocity == (Vector2 { x: OBSTACLE_VELOCITY, y: 0 })
                }
        }),
{
    let next = game.tick(dt, jump_pressed, true, arena_height);
    assert forall|slot: int| 0 <= slot < next.obstacles.len() implies {
        &&& (#[trigger] next.obstacles[slot]).location == game.obstacles[slot].initial_location
        &&& next.obstacles[slot] == slot_spawn(game.config, slot)
        &&& next.obstacles[slot].velocity == (Vector2 { x: OBSTACLE_VELOCITY, y: 0 })
    } by {
        assert(game.slot_wf(slot));
    }
}

/// A new session depends on nothing but the configuration, the size of the
/// pool and the player as it was: two games that agree in these are the same
/// game after a reset, whatever their obstacles, scores, clocks and states.
pub proof fn lemma_reset_forgets(a: GameView, b: GameView)
    requires
        a.config == b.config,
        a.player == b.player,
        a.obstacles.len() == b.obstacles.len(),
    ensures
        a.reset() == b.reset(),
{
}

} // verus!
