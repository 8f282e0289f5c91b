//! An obstacle: a square that scrolls to the left at a speed that only grows.

use vstd::prelude::*;
use crate::collision::BoundingBox;
use crate::constants::{OBSTACLE_SPEED_INCREASE_RATE, OBSTACLE_VELOCITY};
use crate::fixed::{sat_add, saturate};
use crate::player::Player;
use crate::traits::AddVector;
use crate::vector::Vector2;

verus! {

/// What an [`Obstacle`] is, as a plain value.
pub struct ObstacleView {
    /// Where the obstacle spawns and where recycling puts it back.
    pub initial_location: Vector2,
    /// Top-left corner of the bounding box.
    pub location: Vector2,
    pub height: i64,
    pub width: i64,
    pub velocity: Vector2,
    /// What one speed increase adds to the horizontal velocity.
    pub speed_increase_rate: i64,
}

impl ObstacleView {
    /// An obstacle is a square of positive size that moves to the left, never
    /// slower than a fresh one, and that no speed increase slows down.
    pub open spec fn wf(self) -> bool {
        &&& self.width > 0
        &&& self.height == self.width
        &&& self.velocity.x <= OBSTACLE_VELOCITY
        &&& self.speed_increase_rate <= 0
    }

    /// A fresh obstacle of the given size. It spawns `offset` to the right of
    /// (`location_x`, `location_y`).
    pub open spec fn spawn(location_x: i64, location_y: i64, size: i64, offset: i64) -> ObstacleView {
        let initial_location = Vector2 { x: saturate(location_x + offset), y: location_y };
        ObstacleView {
            initial_location,
            location: initial_location,
            height: size,
            width: size,
            velocity: Vector2 { x: OBSTACLE_VELOCITY, y: 0 },
            speed_increase_rate: OBSTACLE_SPEED_INCREASE_RATE,
        }
    }

    /// The obstacle moved to (`x`, `y`), all else unchanged.
    pub open spec fn set_location(self, x: i64, y: i64) -> ObstacleView {
        ObstacleView { location: Vector2 { x, y }, ..self }
    }

    /// The obstacle with another speed increase rate, all else unchanged.
    pub open spec fn set_speed_increase_rate(self, rate: i64) -> ObstacleView {
        ObstacleView { speed_increase_rate: rate, ..self }
    }

    /// One step of motion at the current velocity.
    pub open spec fn run(self) -> ObstacleView {
        ObstacleView { location: self.location.plus(self.velocity), ..self }
    }

    /// The obstacle back at its spawn point. Its velocity stays.
    pub open spec fn reset_location(self) -> ObstacleView {
        ObstacleView { location: self.initial_location, ..self }
    }

    /// Whether the whole obstacle lies to the left of the screen's left edge.
    pub open spec fn is_off_screen(self) -> bool {
        self.location.x + self.width < 0
    }

    /// The obstacle after one speed increase.
    pub open spec fn increase_speed(self) -> ObstacleView {
        ObstacleView {
            velocity: self.velocity.plus(Vector2 { x: self.speed_increase_rate, y: 0 }),
            ..self
        }
    }

    /// The obstacle's bounding box.
    pub open spec fn bounds(self) -> BoundingBox {
        BoundingBox::at(self.location, self.width, self.height)
    }

    /// Whether the next step of motion takes the obstacle off the screen.
    pub open spec fn leaves_screen(self) -> bool {
        self.run().is_off_screen()
    }

    /// The obstacle's share of one tick: it moves one step, goes back to its
    /// spawn point if the step took it off the screen, and then speeds up if
    /// a speed increase is due.
    pub open spec fn advance(self, ramp: bool) -> ObstacleView {
        let moved = self.run();
        let placed = if moved.is_off_screen() {
            moved.reset_location()
        } else {
            moved
        };
        if ramp {
            placed.increase_speed()
        } else {
            placed
        }
    }
}

/// One obstacle of the pool.
#[derive(Clone, Copy, Debug)]
pub struct Obstacle {
    initial_location: Vector2,
    location: Vector2,
    height: i64,
    width: i64,
    velocity: Vector2,
    speed_increase_rate: i64,
}

impl View for Obstacle {
    type V = ObstacleView;

    closed spec fn view(&self) -> ObstacleView {
        ObstacleView {
            initial_location: self.initial_location,
            location: self.location,
            height: self.height,
            width: self.width,
            velocity: self.velocity,
            speed_increase_rate: self.speed_increase_rate,
        }
    }
}

impl Obstacle {
    /// A fresh obstacle, `size` wide and high, that spawns `offset` to the
    /// right of (`location_x`, `location_y`).
    pub fn new(location_x: i64, location_y: i64, size: i64, offset: i64) -> (obstacle: Obstacle)
        requires
            size > 0,
        ensures
            obstacle@ == ObstacleView::spawn(location_x, location_y, size, offset),
            obstacle@.wf(),
    {
        let initial_location = Vector2 { x: sat_add(location_x, offset), y: location_y };
        let location = initial_location;
        let velocity = Vector2 { x: OBSTACLE_VELOCITY, y: 0 };

        Obstacle {
            initial_location,
            location,
            velocity,
            height: size,
            width: size,
            speed_increase_rate: OBSTACLE_SPEED_INCREASE_RATE,
        }
    }

    pub fn get_location(&self) -> (location: Vector2)
        ensures
            location == self@.location,
    {
        Vector2 { x: self.location.x, y: self.location.y }
    }

    pub fn set_location(&mut self, x: i64, y: i64)
        ensures
            final(self)@ == old(self)@.set_location(x, y),
    {
        self.location.x = x;
        self.location.y = y;
    }

    /// Width and height, in this order.
    pub fn get_size(&self) -> (size: (i64, i64))
        ensures
            size == (self@.width, self@.height),
    {
        (self.width, self.height)
    }

    pub fn get_initial_location(&self) -> (location: Vector2)
        ensures
            location == self@.initial_location,
    {
        self.initial_location
    }

    pub fn get_velocity(&self) -> (velocity: Vector2)
        ensures
            velocity == self@.velocity,
    {
        self.velocity
    }

    pub fn get_speed_increase_rate(&self) -> (rate: i64)
        ensures
            rate == self@.speed_increase_rate,
    {
        self.speed_increase_rate
    }

    /// Sets what one speed increase adds to the horizontal velocity. The rate
    /// may not be positive: an obstacle never slows down.
    pub fn set_speed_increase_rate(&mut self, rate: i64)
        requires
            rate <= 0,
        ensures
            final(self)@ == old(self)@.set_speed_increase_rate(rate),
    {
        self.speed_increase_rate = rate;
    }

    /// The obstacle's bounding box.
    pub fn bounds(&self) -> (b: BoundingBox)
        ensures
            b == self@.bounds(),
    {
        BoundingBox::new(self.location, self.width, self.height)
    }

    /// One step of motion at the current velocity.
    pub fn run(&mut self)
        ensures
            final(self)@ == old(self)@.run(),
    {
        self.location.add_vector(&self.velocity);
    }

    /// Puts the obstacle back at its spawn point. Its velocity stays.
    pub fn reset_location(&mut self)
        ensures
            final(self)@ == old(self)@.reset_location(),
    {
        self.location = self.initial_location;
    }

    /// Whether the whole obstacle lies to the left of the screen's left edge.
    pub fn is_off_screen(&self) -> (off: bool)
        ensures
            off == self@.is_off_screen(),
    {
        (self.location.x as i128 + self.width as i128) < 0
    }

    /// Speeds the obstacle up by its speed increase rate.
    pub fn increase_speed(&mut self)
        ensures
            final(self)@ == old(self)@.increase_speed(),
    {
        self.velocity.add_vector(&Vector2 { x: self.speed_increase_rate, y: 0 })
    }

    /// Whether the obstacle's bounding box overlaps the player's.
    pub fn is_hitting_player(&self, player: &Player) -> (hit: bool)
        ensures
            hit == self@.bounds().overlaps(player@.bounds()),
    {
        let player_location = player.get_location();
        let (width, height) = player.get_size();
        self.bounds().is_overlapping(&BoundingBox::new(player_location, width, height))
    }
}

} // verus!
