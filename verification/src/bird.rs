//! The bird: the one body that the player controls.

use vstd::prelude::*;
use crate::base::{bird_index, bird_of, find_bird, has_single_bird};
use crate::body::{Body, Category, Vec2, Velocity};

verus! {

/// The width and the height of the bird.
pub const BIRD_SIZE: i64 = 20_000_000;

/// Where the bird starts, on the horizontal axis.
pub const BIRD_STARTING_X: i64 = -100_000_000;

/// Where the bird starts, on the vertical axis.
pub const BIRD_STARTING_Y: i64 = 0;

/// The upward velocity that a flap gives, in micro-units per second.
pub const BIRD_SPEED: i64 = 400_000_000;

/// The bird as a round starts: at its starting position, rising at
/// `BIRD_SPEED`, a collider under gravity.
pub open spec fn new_bird() -> Body {
    Body {
        category: Category::Bird,
        position: Vec2 { x: BIRD_STARTING_X, y: BIRD_STARTING_Y },
        velocity: Some(Velocity(Vec2 { x: 0, y: BIRD_SPEED })),
        half_extent: Vec2 { x: (BIRD_SIZE / 2) as i64, y: (BIRD_SIZE / 2) as i64 },
        collider: true,
        gravity: true,
    }
}

/// A body after a flap: its vertical velocity is `BIRD_SPEED`, whatever it was
/// before. A body without a velocity is left as it is.
pub open spec fn flap_step(b: Body) -> Body {
    match b.velocity {
        Some(v) => Body { velocity: Some(Velocity(Vec2 { x: v.0.x, y: BIRD_SPEED })), ..b },
        None => b,
    }
}

impl Body {
    /// Makes the bird as a round starts.
    pub fn bird() -> (r: Body)
        ensures
            r == new_bird(),
            r.wf(),
    {
        Body {
            category: Category::Bird,
            position: Vec2 { x: BIRD_STARTING_X, y: BIRD_STARTING_Y },
            velocity: Some(Velocity(Vec2 { x: 0, y: BIRD_SPEED })),
            half_extent: Vec2 { x: BIRD_SIZE / 2, y: BIRD_SIZE / 2 },
            collider: true,
            gravity: true,
        }
    }
}

/// Adds the bird to the bodies.
pub fn setup(bodies: &mut Vec<Body>)
    ensures
        final(bodies)@ == old(bodies)@.push(new_bird()),
{
    bodies.push(Body::bird());
}

/// Applies the player's input to the bird: on a flap the bird's vertical
/// velocity becomes `BIRD_SPEED`; without one nothing changes.
pub fn move_bird(bodies: &mut Vec<Body>, flap: bool)
    requires
        has_single_bird(old(bodies)@),
    ensures
        flap ==> final(bodies)@ == old(bodies)@.update(
            bird_index(old(bodies)@),
            flap_step(bird_of(old(bodies)@)),
        ),
        !flap ==> final(bodies)@ == old(bodies)@,
{
    if flap {
        match find_bird(bodies) {
            Some(at) => {
                let b = bodies[at];
                let flapped = match b.velocity {
                    Some(v) => Body {
                        velocity: Some(Velocity(Vec2 { x: v.0.x, y: BIRD_SPEED })),
                        ..b
                    },
                    None => b,
                };
                bodies.set(at, flapped);
            },
            None => {},
        }
    }
}

/// A flap overrides: after it the vertical velocity is `BIRD_SPEED` whatever
/// it was, so a second flap, whatever happened to the body in between, gives
/// `BIRD_SPEED` again and not more.
pub proof fn flap_overrides(before: Body, between: Body)
    requires
        before.velocity is Some,
        between.velocity is Some,
    ensures
        flap_step(before).speed().y == BIRD_SPEED,
        flap_step(between).speed().y == BIRD_SPEED,
        flap_step(flap_step(before)) == flap_step(before),
        flap_step(before).speed().x == before.speed().x,
        flap_step(before).position == before.position,
{
}

} // verus!
