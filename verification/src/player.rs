//! The player: a kinematic body that falls, lands and jumps.

use vstd::prelude::*;
use crate::atlas::{Atlas, Sprite};
use crate::collision::BoundingBox;
use crate::constants::PLAYER_SIZE;
use crate::obstacle::Obstacle;
use crate::traits::{AddVector, MultiplyScalar};
use crate::vector::Vector2;
use crate::fixed::{sat_sub, saturate};

verus! {

/// What a [`Player`] is, as a plain value.
pub struct PlayerView {
    /// Top-left corner of the bounding box.
    pub location: Vector2,
    pub height: i64,
    pub width: i64,
    /// Sum of the forces applied since the last integration step.
    pub acceleration: Vector2,
    pub velocity: Vector2,
    /// True from a jump, or from the start, until the next ground contact.
    pub is_jumping: bool,
}

impl PlayerView {
    /// A player has a positive width and height.
    pub open spec fn wf(self) -> bool {
        self.width > 0 && self.height > 0
    }

    /// The player as constructed: at the origin, at rest and airborne.
    pub open spec fn initial() -> PlayerView {
        PlayerView {
            location: Vector2::zero(),
            height: PLAYER_SIZE,
            width: PLAYER_SIZE,
            acceleration: Vector2::zero(),
            velocity: Vector2::zero(),
            is_jumping: true,
        }
    }

    /// The player moved to (`x`, `y`), all else unchanged.
    pub open spec fn set_location(self, x: i64, y: i64) -> PlayerView {
        PlayerView { location: Vector2 { x, y }, ..self }
    }

    /// The player with `force` added to the pending acceleration.
    pub open spec fn apply_force(self, force: Vector2) -> PlayerView {
        PlayerView { acceleration: self.acceleration.plus(force), ..self }
    }

    /// One integration step: the velocity takes up the pending acceleration,
    /// the location takes up the new velocity, and the acceleration is spent.
    pub open spec fn run(self) -> PlayerView {
        let velocity = self.velocity.plus(self.acceleration);
        PlayerView {
            velocity,
            location: self.location.plus(velocity),
            acceleration: Vector2::zero(),
            ..self
        }
    }

    /// Whether the bottom edge lies below the floor of an arena of the given
    /// height.
    pub open spec fn below_ground(self, arena_height: i64) -> bool {
        self.location.y + self.height > arena_height
    }

    /// Ground contact: a player below the floor is put back onto it, loses
    /// its vertical velocity and may jump again. Any other player is left as
    /// it is.
    pub open spec fn hit_ground(self, arena_height: i64) -> PlayerView {
        if self.below_ground(arena_height) {
            PlayerView {
                location: Vector2 {
                    x: self.location.x,
                    y: saturate(arena_height - self.height),
                },
                velocity: Vector2 { x: self.velocity.x, y: 0 },
                is_jumping: false,
                ..self
            }
        } else {
            self
        }
    }

    /// A jump: taken only by a player that is not jumping already.
    pub open spec fn jump(self, jump_force: Vector2) -> PlayerView {
        if self.is_jumping {
            self
        } else {
            PlayerView { is_jumping: true, ..self.apply_force(jump_force) }
        }
    }

    /// The player's bounding box.
    pub open spec fn bounds(self) -> BoundingBox {
        BoundingBox::at(self.location, self.width, self.height)
    }

    /// The player's share of one tick, in its fixed order: gravity is
    /// applied, the motion is integrated, ground contact is resolved, and
    /// only then a pressed jump key is answered.
    pub open spec fn step(
        self,
        gravity: i64,
        arena_height: i64,
        jump_pressed: bool,
        jump_force: Vector2,
    ) -> PlayerView {
        let landed = self.apply_force(Vector2 { x: 0, y: gravity }).run().hit_ground(arena_height);
        if jump_pressed {
            landed.jump(jump_force)
        } else {
            landed
        }
    }

    /// Whether the player's next step of motion under `gravity` ends below the
    /// floor of an arena of the given height, and so in ground contact.
    pub open spec fn lands(self, gravity: i64, arena_height: i64) -> bool {
        self.apply_force(Vector2 { x: 0, y: gravity }).run().below_ground(arena_height)
    }

    /// Standing on the floor of an arena of the given height, at rest
    /// vertically.
    pub open spec fn grounded(self, arena_height: i64) -> bool {
        self.location.y + self.height == arena_height && self.velocity.y == 0
    }
}

/// The player character.
#[derive(Clone, Copy, Debug)]
pub struct Player {
    location: Vector2,
    height: i64,
    width: i64,
    acceleration: Vector2,
    velocity: Vector2,
    is_jumping: bool,
}

impl View for Player {
    type V = PlayerView;

    closed spec fn view(&self) -> PlayerView {
        PlayerView {
            location: self.location,
            height: self.height,
            width: self.width,
            acceleration: self.acceleration,
            velocity: self.velocity,
            is_jumping: self.is_jumping,
        }
    }
}

impl Player {
    /// A player at the origin, at rest, airborne until it first lands.
    pub fn new() -> (player: Player)
        ensures
            player@ == PlayerView::initial(),
            player@.wf(),
    {
        let acceleration = Vector2 { x: 0, y: 0 };
        let velocity = Vector2 { x: 0, y: 0 };

        Player {
            location: Vector2 { x: 0, y: 0 },
            height: PLAYER_SIZE,
            width: PLAYER_SIZE,
            is_jumping: true,
            acceleration,
            velocity,
        }
    }

    /// The four frames of the player's running animation, cut out of the
    /// atlas in the order in which they are shown. The atlas must hold all
    /// four.
    pub fn create_sprites(&self, sprites: &Atlas) -> (frames: Vec<Sprite>)
        requires
            sprites@.contains("RunRight01.png"@),
            sprites@.contains("RunRight02.png"@),
            sprites@.contains("RunRight03.png"@),
            sprites@.contains("RunRight04.png"@),
        ensures
            frames@ == seq![
                sprites@.sprite("RunRight01.png"@),
                sprites@.sprite("RunRight02.png"@),
                sprites@.sprite("RunRight03.png"@),
                sprites@.sprite("RunRight04.png"@),
            ],
    {
        let player1 = sprites.create_sprite("RunRight01.png");
        let player2 = sprites.create_sprite("RunRight02.png");
        let player3 = sprites.create_sprite("RunRight03.png");
        let player4 = sprites.create_sprite("RunRight04.png");
        let frames = vec![player1, player2, player3, player4];
        assert(frames@ =~= seq![player1, player2, player3, player4]);
        frames
    }

    pub fn get_location(&self) -> (location: Vector2)
        ensures
            location == self@.location,
    {
        Vector2 { x: self.location.x, y: self.location.y }
    }

    pub fn set_location(&mut self, x: i64, y: i64)
        ensures
            final(self)@ == old(self)@.set_location(x, y),
    {
        self.location.x = x;
        self.location.y = y;
    }

    /// Width and height, in this order.
    pub fn get_size(&self) -> (size: (i64, i64))
        ensures
            size == (self@.width, self@.height),
    {
        (self.width, self.height)
    }

    pub fn get_velocity(&self) -> (velocity: Vector2)
        ensures
            velocity == self@.velocity,
    {
        self.velocity
    }

    pub fn get_acceleration(&self) -> (acceleration: Vector2)
        ensures
            acceleration == self@.acceleration,
    {
        self.acceleration
    }

    pub fn is_jumping(&self) -> (jumping: bool)
        ensures
            jumping == self@.is_jumping,
    {
        self.is_jumping
    }

    /// The player's bounding box.
    pub fn bounds(&self) -> (b: BoundingBox)
        ensures
            b == self@.bounds(),
    {
        BoundingBox::new(self.location, self.width, self.height)
    }

    /// Adds `force` to the acceleration that the next integration step uses.
    pub fn apply_force(&mut self, force: &Vector2)
        ensures
            final(self)@ == old(self)@.apply_force(*force),
    {
        self.acceleration.add_vector(force);
    }

    /// One integration step.
    pub fn run(&mut self)
        ensures
            final(self)@ == old(self)@.run(),
    {
        self.velocity.add_vector(&self.acceleration);
        self.location.add_vector(&self.velocity);
        self.acceleration.multiply(0);
    }

    /// Resolves ground contact against the floor of an arena of the given
    /// height.
    pub fn hit_ground(&mut self, arena_height: i64)
        ensures
            final(self)@ == old(self)@.hit_ground(arena_height),
    {
        if self.location.y as i128 + self.height as i128 > arena_height as i128 {
            self.location.y = sat_sub(arena_height, self.height);
            self.velocity.y = 0;
            self.is_jumping = false;
        }
    }

    /// Jumps with the given impulse, unless the player is jumping already.
    pub fn jump(&mut self, jump_force: &Vector2)
        ensures
            final(self)@ == old(self)@.jump(*jump_force),
    {
        if !self.is_jumping {
            self.apply_force(jump_force);
            self.is_jumping = true;
        }
    }

    /// Whether the player's bounding box overlaps the obstacle's.
    pub fn is_hitting_obstacle(&self, obstacle: &Obstacle) -> (hit: bool)
        ensures
            hit == self@.bounds().overlaps(obstacle@.bounds()),
    {
        let obstacle_location = obstacle.get_location();
        let (width, height) = obstacle.get_size();
        self.bounds().is_overlapping(&BoundingBox::new(obstacle_location, width, height))
    }
}

} // verus!
