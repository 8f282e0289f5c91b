//! Runs of ticks: what holds of a game over a whole sequence of inputs.

use vstd::prelude::*;
use crate::constants::GameState;
use crate::dynamics::{lemma_first_hit, lemma_reset_forgets, lemma_tick_grounded};
use crate::fixed::saturate;
use crate::game::{lemma_tick_preserves_wf, GameView, SnapshotView};
use crate::ramp::{clock_after, lemma_pulses_are_periodic, pulses};
use crate::vector::Vector2;

verus! {

/// The arguments of one tick.
pub struct TickInput {
    /// Time that has passed since the last tick.
    pub dt: u64,
    pub jump_pressed: bool,
    pub restart_pressed: bool,
    pub arena_height: i64,
}

impl GameView {
    /// One tick with the given arguments.
    pub open spec fn tick_with(self, input: TickInput) -> GameView {
        self.tick(input.dt, input.jump_pressed, input.restart_pressed, input.arena_height)
    }

    /// The game after one tick for each of `inputs`, in their order.
    pub open spec fn replay(self, inputs: Seq<TickInput>) -> GameView
        decreases inputs.len(),
    {
        if inputs.len() == 0 {
            self
        } else {
            self.replay(inputs.drop_last()).tick_with(inputs.last())
        }
    }

    /// What the game shows after each of the ticks of a run.
    pub open spec fn trace(self, inputs: Seq<TickInput>) -> Seq<SnapshotView> {
        Seq::new(inputs.len(), |k: int| self.replay(inputs.take(k + 1)).snapshot())
    }

    /// Whether the game runs before the first tick of a run and after each of
    /// its ticks: no tick of the run ends with the player hit.
    pub open spec fn stays_running(self, inputs: Seq<TickInput>) -> bool
        decreases inputs.len(),
    {
        if inputs.len() == 0 {
            self.state == GameState::Running
        } else {
            self.stays_running(inputs.drop_last()) && self.replay(inputs).state
                == GameState::Running
        }
    }
}

/// Every run of ticks keeps a well-formed game well formed, with its
/// configuration and the size of its pool.
pub proof fn lemma_replay_preserves_wf(game: GameView, inputs: Seq<TickInput>)
    requires
        game.wf(),
    ensures
        game.replay(inputs).wf(),
        game.replay(inputs).config == game.config,
        game.replay(inputs).obstacles.len() == game.obstacles.len(),
    decreases inputs.len(),
{
    if inputs.len() > 0 {
        lemma_replay_preserves_wf(game, inputs.drop_last());
        let input = inputs.last();
        lemma_tick_preserves_wf(
            game.replay(inputs.drop_last()),
            input.dt,
            input.jump_pressed,
            input.restart_pressed,
            input.arena_height,
        );
    }
}

/// A game that stays running over a run of ticks runs when the run ends.
pub proof fn lemma_stays_running(game: GameView, inputs: Seq<TickInput>)
    requires
        game.stays_running(inputs),
    ensures
        game.replay(inputs).state == GameState::Running,
{
}

/// Once grounded, always grounded: a player that stands on the floor with no
/// impulse pending still stands there, at rest vertically, after any run of
/// ticks in an arena of the same height on which neither the jump key nor the
/// restart key is pressed.
pub proof fn lemma_grounded_for_good(game: GameView, inputs: Seq<TickInput>, arena_height: i64)
    requires
        game.wf(),
        game.player.grounded(arena_height),
        game.player.acceleration == Vector2::zero(),
        forall|k: int|
            0 <= k < inputs.len() ==> {
                &&& (#[trigger] inputs[k]).arena_height == arena_height
                &&& !inputs[k].jump_pressed
                &&& !inputs[k].restart_pressed
            },
    ensures
        game.replay(inputs).player.grounded(arena_height),
        game.replay(inputs).player.acceleration == Vector2::zero(),
    decreases inputs.len(),
{
    if inputs.len() > 0 {
        let earlier = inputs.drop_last();
        assert forall|k: int| 0 <= k < earlier.len() implies {
            &&& (#[trigger] earlier[k]).arena_height == arena_height
            &&& !earlier[k].jump_pressed
            &&& !earlier[k].restart_pressed
        } by {
            assert(earlier[k] == inputs[k]);
        }
        lemma_grounded_for_good(game, earlier, arena_height);
        lemma_replay_preserves_wf(game, earlier);
        let before = game.replay(earlier);
        let input = inputs.last();
        assert(input == inputs[inputs.len() - 1]);
        if before.state == GameState::Running {
            lemma_tick_grounded(
                before,
                input.dt,
                input.jump_pressed,
                input.restart_pressed,
                input.arena_height,
            );
        }
    }
}

/// The speed ramp in the game. Over a run of ticks of one length on which the
/// game keeps running, the game's clock goes as the ramp's clock does, and
/// every obstacle has gained one speed increment per pulse.
pub proof fn lemma_ramp_in_game(game: GameView, inputs: Seq<TickInput>, dt: u64)
    requires
        game.wf(),
        game.stays_running(inputs),
        forall|k: int| 0 <= k < inputs.len() ==> (#[trigger] inputs[k]).dt == dt,
    ensures
        game.replay(inputs).time_elapsed == clock_after(
            game.time_elapsed,
            dt,
            game.config.ramp_interval,
            inputs.len(),
        ),
        game.replay(inputs).obstacles.len() == game.obstacles.len(),
        forall|slot: int|
            0 <= slot < game.obstacles.len() ==> (#[trigger] game.replay(
                inputs,
            ).obstacles[slot]).velocity.x == saturate(
                game.obstacles[slot].velocity.x + pulses(
                    game.time_elapsed,
                    dt,
                    game.config.ramp_interval,
                    inputs.len(),
                ) * game.config.speed_increment,
            ),
    decreases inputs.len(),
{
    let interval = game.config.ramp_interval;
    let increment = game.config.speed_increment;
    let after = game.replay(inputs);
    if inputs.len() == 0 {
        assert forall|slot: int| 0 <= slot < game.obstacles.len() implies (
        #[trigger] after.obstacles[slot]).velocity.x == saturate(
            game.obstacles[slot].velocity.x + pulses(game.time_elapsed, dt, interval, 0)
                * increment,
        ) by {
            assert(0 * increment == 0);
        }
    } else {
        let earlier = inputs.drop_last();
        assert forall|k: int| 0 <= k < earlier.len() implies (#[trigger] earlier[k]).dt == dt by {
            assert(earlier[k] == inputs[k]);
        }
        lemma_ramp_in_game(game, earlier, dt);
        lemma_replay_preserves_wf(game, earlier);
        let before = game.replay(earlier);
        let input = inputs.last();
        assert(input == inputs[inputs.len() - 1]);
        lemma_stays_running(game, earlier);
        let ramp = before.ramp_due(dt);
        let count = pulses(game.time_elapsed, dt, interval, earlier.len());
        let total = pulses(game.time_elapsed, dt, interval, inputs.len());
        assert(total == if ramp {
            count + 1
        } else {
            count
        });
        assert(total * increment == count * increment + (total - count) * increment)
            by (nonlinear_arith);
        assert((total - count) * increment == if ramp {
            increment as int
        } else {
            0
        }) by (nonlinear_arith)
            requires
                total - count == if ramp {
                    1int
                } else {
                    0int
                },
        ;
        assert(count * increment <= 0) by (nonlinear_arith)
            requires
                count >= 0,
                increment <= 0,
        ;
        lemma_first_hit(
            before.obstacles,
            before.next_player(input.jump_pressed, input.arena_height),
            ramp,
            0,
        );
        assert forall|slot: int| 0 <= slot < game.obstacles.len() implies (
        #[trigger] after.obstacles[slot]).velocity.x == saturate(
            game.obstacles[slot].velocity.x + total * increment,
        ) by {
            assert(before.slot_wf(slot));
            assert(after.obstacles[slot] == before.obstacles[slot].advance(ramp));
        }
    }
}

/// The speed ramp is periodic in the game. A fresh session is run in ticks of
/// one length and keeps running. Then by the time `T` every obstacle has
/// gained `T / interval` speed increments, rounded down, whatever the length
/// of a tick, as long as a tick is no longer than the ramp interval and `T`
/// is not itself a multiple of the interval. (With longer ticks the ramp
/// falls behind, one increment per tick: the count then is the number of
/// ticks.)
pub proof fn lemma_ramp_is_periodic_in_game(game: GameView, inputs: Seq<TickInput>, dt: u64)
    requires
        game.wf(),
        game.time_elapsed == 0,
        game.stays_running(inputs),
        forall|k: int| 0 <= k < inputs.len() ==> (#[trigger] inputs[k]).dt == dt,
        dt <= game.config.ramp_interval ==> dt + game.config.ramp_interval <= u64::MAX && (
        inputs.len() * dt == 0 || (inputs.len() * dt) % (game.config.ramp_interval as int) != 0),
        dt > game.config.ramp_interval ==> inputs.len() * dt <= u64::MAX && (inputs.len() * dt) / (
        game.config.ramp_interval as int) == inputs.len(),
    ensures
        forall|slot: int|
            0 <= slot < game.obstacles.len() ==> (#[trigger] game.replay(
                inputs,
            ).obstacles[slot]).velocity.x == saturate(
                game.obstacles[slot].velocity.x + ((inputs.len() * dt) / (
                game.config.ramp_interval as int)) * game.config.speed_increment,
            ),
{
    lemma_ramp_in_game(game, inputs, dt);
    lemma_pulses_are_periodic(dt, game.config.ramp_interval, inputs.len());
}

/// Replaying a run gives the same trace. Two games that agree in their
/// configuration, their player and the size of their pool show, after a
/// reset, the same states, scores and positions tick by tick when they are
/// given the same inputs.
pub proof fn lemma_replay_is_reproducible(a: GameView, b: GameView, inputs: Seq<TickInput>)
    requires
        a.config == b.config,
        a.player == b.player,
        a.obstacles.len() == b.obstacles.len(),
    ensures
        a.reset().replay(inputs) == b.reset().replay(inputs),
        a.reset().trace(inputs) == b.reset().trace(inputs),
{
    lemma_reset_forgets(a, b);
}

} // verus!
