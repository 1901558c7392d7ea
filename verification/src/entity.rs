//! The bodies of the simulation: players and bullets. Each advances itself
//! by one time step and reports, at most, one thing that has to happen to it.

use crate::fixed::{added, sum};
use crate::geometry::{Angle, Vec2};
use vstd::prelude::*;

verus! {

/// The speed from which the velocity of a new bullet is made, in
/// thousandths of a world unit per second: the velocity is
/// `Vec2::along(angle, BULLET_VEL)`, this speed times the cosine of the
/// player's angle in each coordinate.
pub const BULLET_VEL: i64 = 20_000;

/// Radius of a player, in steps of length.
pub const PLAYER_RADIUS_SIZE: i64 = 10_000_000;

/// Radius of a bullet, in steps of length.
pub const BULLET_RADIUS_SIZE: i64 = 3_000_000;

/// The length from which the offset of a new bullet is made: the radius of a
/// player and one world unit. The bullet appears at the player's position
/// plus `Vec2::along(angle, SPAWN_DISTANCE)`: each coordinate is offset by
/// this length times the cosine of the player's angle, which is as far as
/// stated here only at cosine one, and is nothing at cosine zero.
pub const SPAWN_DISTANCE: i64 = 11_000_000;

/// How long a bullet lives, in milliseconds.
pub const BULLET_LIFETIME: i64 = 10_000;

/// Health of a player who has just joined.
pub const STARTING_HEALTH: i32 = 100;

/// An entity's request, made during a tick, to be taken out of the game.
#[derive(Debug, PartialEq, Eq)]
pub enum Action {
    /// The player of this name has died.
    DeletePlayer(String),
    /// The bullet at this place of the bullet sequence has expired.
    DeleteBullet(usize),
}

/// What an [`Action`] says, with the name as a sequence of characters.
pub enum ActionView {
    DeletePlayer(Seq<char>),
    DeleteBullet(usize),
}

impl View for Action {
    type V = ActionView;

    open spec fn view(&self) -> ActionView {
        match *self {
            Action::DeletePlayer(name) => ActionView::DeletePlayer(name@),
            Action::DeleteBullet(index) => ActionView::DeleteBullet(index),
        }
    }
}

impl Clone for Action {
    fn clone(&self) -> (r: Self)
        ensures
            r@ == self@,
    {
        match self {
            Action::DeletePlayer(name) => Action::DeletePlayer(name.clone()),
            Action::DeleteBullet(index) => Action::DeleteBullet(*index),
        }
    }
}

/// A bullet in flight. It leaves the lobby at the tick at which it strikes a
/// player or at which its age has reached its lifetime.
#[derive(Debug, Clone, Copy, PartialEq, Eq, Structural)]
pub struct BulletState {
    pub position: Vec2,
    pub velocity: Vec2,
    /// The age, in milliseconds, at which the bullet expires.
    pub lifetime: i64,
    /// The bullet's age, in milliseconds.
    pub time: i64,
    /// The bullet's place in the sequence that holds it.
    pub index: usize,
}

impl BulletState {
    /// The bullet after `dt` milliseconds: moved along its velocity, and
    /// older by `dt`.
    pub open spec fn moved(self, dt: i64) -> BulletState {
        BulletState {
            position: self.position.moved(self.velocity, dt),
            velocity: self.velocity,
            lifetime: self.lifetime,
            time: added(self.time, dt),
            index: self.index,
        }
    }

    /// Whether the bullet has reached the end of its life.
    pub open spec fn expired(self) -> bool {
        self.time >= self.lifetime
    }

    /// Advances the bullet by `delta_time` milliseconds. Asks for the bullet's
    /// removal exactly when its age has then reached its lifetime.
    pub fn update(&mut self, delta_time: i64) -> (r: Option<Action>)
        ensures
            *final(self) == old(self).moved(delta_time),
            r == if final(self).expired() {
                Some(Action::DeleteBullet(old(self).index))
            } else {
                None
            },
    {
        self.position = self.position.step(&self.velocity, delta_time);
        self.time = sum(self.time, delta_time);
        if self.time >= self.lifetime {
            return Some(Action::DeleteBullet(self.index));
        }
        None
    }
}

/// A player of the lobby.
#[derive(Debug, PartialEq, Eq)]
pub struct PlayerState {
    /// The name, by which the lobby knows the player.
    pub name: String,
    pub position: Vec2,
    pub velocity: Vec2,
    /// The direction the player faces.
    pub angle: Angle,
    pub health: i32,
    pub alive: bool,
}

/// A player, with the name as a sequence of characters.
pub struct PlayerStateView {
    pub name: Seq<char>,
    pub position: Vec2,
    pub velocity: Vec2,
    pub angle: Angle,
    pub health: i32,
    pub alive: bool,
}

impl View for PlayerState {
    type V = PlayerStateView;

    open spec fn view(&self) -> PlayerStateView {
        PlayerStateView {
            name: self.name@,
            position: self.position,
            velocity: self.velocity,
            angle: self.angle,
            health: self.health,
            alive: self.alive,
        }
    }
}

impl PlayerStateView {
    /// The player as it is at the moment it joins at `position`: at rest,
    /// facing along angle zero, in full health.
    pub open spec fn fresh(name: Seq<char>, position: Vec2) -> PlayerStateView {
        PlayerStateView {
            name,
            position,
            velocity: Vec2 { x: 0, y: 0 },
            angle: Angle::origin(),
            health: STARTING_HEALTH,
            alive: true,
        }
    }

    /// The player after `dt` milliseconds: moved along its velocity.
    pub open spec fn moved(self, dt: i64) -> PlayerStateView {
        PlayerStateView { position: self.position.moved(self.velocity, dt), ..self }
    }

    /// Whether some bullet of `bullets` lies strictly inside the player's
    /// radius.
    pub open spec fn struck(self, bullets: Seq<BulletState>) -> bool {
        exists|i: int|
            0 <= i < bullets.len() && self.position.within(
                (#[trigger] bullets[i]).position,
                PLAYER_RADIUS_SIZE,
            )
    }
}

impl Clone for PlayerState {
    fn clone(&self) -> (r: Self)
        ensures
            r@ == self@,
    {
        PlayerState {
            name: self.name.clone(),
            position: self.position,
            velocity: self.velocity,
            angle: self.angle,
            health: self.health,
            alive: self.alive,
        }
    }
}

impl PlayerState {
    /// A player who joins at `position`.
    pub fn new(name: &str, position: Vec2) -> (r: Self)
        ensures
            r@ == PlayerStateView::fresh(name@, position),
    {
        PlayerState {
            name: name.to_owned(),
            position,
            velocity: Vec2 { x: 0, y: 0 },
            angle: Angle::zero(),
            health: STARTING_HEALTH,
            alive: true,
        }
    }

    /// Advances the player by `delta_time` milliseconds, then tests the new
    /// position against every bullet. Asks for the player's death exactly
    /// when some bullet lies strictly inside the player's radius; with several
    /// such bullets the first in the sequence decides, and all give the same
    /// answer.
    pub fn update(&mut self, delta_time: i64, bullets: &Vec<BulletState>) -> (r: Option<Action>)
        ensures
            final(self)@ == old(self)@.moved(delta_time),
            r is Some <==> final(self)@.struck(bullets@),
            r matches Some(action) ==> action@ == ActionView::DeletePlayer(old(self)@.name),
    {
        self.position = self.position.step(&self.velocity, delta_time);
        let mut i: usize = 0;
        while i < bullets.len()
            invariant
                i <= bullets.len(),
                self@ == old(self)@.moved(delta_time),
                forall|k: int|
                    0 <= k < i ==> !self.position.within(
                        (#[trigger] bullets@[k]).position,
                        PLAYER_RADIUS_SIZE,
                    ),
            decreases bullets.len() - i,
        {
            if self.position.is_within(&bullets[i].position, PLAYER_RADIUS_SIZE) {
                return Some(Action::DeletePlayer(self.name.clone()));
            }
            i += 1;
        }
        None
    }
}

} // verus!
