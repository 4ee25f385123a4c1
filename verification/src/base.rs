//! The rules that every round shares: the state of the round, gravity, the
//! integration of velocities and the collision test.

use vstd::prelude::*;
use crate::body::{collide, Body, Category, Vec2, Velocity};
use crate::fixed::{offset, saturate, scale, scaled};

verus! {

/// The acceleration of gravity, in micro-units per second squared.
pub const GRAVITY: i64 = 986_400_000;

/// The state of a round. A round starts in `Play`; a collision ends it.
#[derive(Clone, Copy, Debug, PartialEq, Eq, Structural, Hash)]
pub enum GameState {
    Play,
    GameOver,
}

impl Default for GameState {
    fn default() -> (r: GameState)
        ensures
            r == GameState::Play,
    {
        GameState::Play
    }
}

/// The score of a round.
#[derive(Clone, Copy, Debug, PartialEq, Eq, Structural)]
pub struct Scoreboard {
    pub score: u32,
}

/// What the bird ran into.
#[derive(Clone, Copy, Debug, PartialEq, Eq, Structural)]
pub enum CategoryHit {
    Pipe,
    Wall,
}

/// A body after gravity has acted on it for `dt` microseconds: where the body
/// is under gravity and has a velocity, the vertical velocity has dropped by
/// `GRAVITY` times `dt`, saturating at the lowest `i64`. Nothing else changes.
pub open spec fn gravity_step(b: Body, dt: int) -> Body {
    match b.velocity {
        Some(v) if b.gravity => Body {
            velocity: Some(
                Velocity(Vec2 { x: v.0.x, y: saturate(v.0.y - scaled(GRAVITY as int, dt)) as i64 }),
            ),
            ..b
        },
        _ => b,
    }
}

/// A body after it has moved by its own velocity for `dt` microseconds. Each
/// coordinate saturates at the limits of `i64`. A body without a velocity
/// stays.
pub open spec fn velocity_step(b: Body, dt: int) -> Body {
    match b.velocity {
        Some(v) => Body {
            position: Vec2 {
                x: saturate(b.position.x + scaled(v.0.x as int, dt)) as i64,
                y: saturate(b.position.y + scaled(v.0.y as int, dt)) as i64,
            },
            ..b
        },
        None => b,
    }
}

fn gravity_stepped(b: Body, dt: u32) -> (r: Body)
    ensures
        r == gravity_step(b, dt as int),
{
    match b.velocity {
        Some(v) => {
            if b.gravity {
                let drop = scale(GRAVITY, dt);
                let y = offset(v.0.y, -drop);
                Body { velocity: Some(Velocity(Vec2 { x: v.0.x, y })), ..b }
            } else {
                b
            }
        },
        None => b,
    }
}

fn velocity_stepped(b: Body, dt: u32) -> (r: Body)
    ensures
        r == velocity_step(b, dt as int),
{
    match b.velocity {
        Some(v) => {
            let x = offset(b.position.x, scale(v.0.x, dt));
            let y = offset(b.position.y, scale(v.0.y, dt));
            Body { position: Vec2 { x, y }, ..b }
        },
        None => b,
    }
}

/// Lets gravity act for `dt` microseconds on every body that is under it.
pub fn apply_gravity(bodies: &mut Vec<Body>, dt: u32)
    ensures
        final(bodies)@ == old(bodies)@.map_values(|b: Body| gravity_step(b, dt as int)),
{
    let n = bodies.len();
    let mut i: usize = 0;
    while i < n
        invariant
            i <= n,
            n == bodies.len(),
            n == old(bodies).len(),
            forall|j: int| 0 <= j < i ==> bodies[j] == gravity_step(old(bodies)[j], dt as int),
            forall|j: int| i <= j < n ==> bodies[j] == old(bodies)[j],
        decreases n - i,
    {
        let b = bodies[i];
        bodies.set(i, gravity_stepped(b, dt));
        i += 1;
    }
    assert(bodies@ =~= old(bodies)@.map_values(|b: Body| gravity_step(b, dt as int)));
}

/// Moves every body that has a velocity by that velocity for `dt`
/// microseconds.
pub fn apply_velocity(bodies: &mut Vec<Body>, dt: u32)
    ensures
        final(bodies)@ == old(bodies)@.map_values(|b: Body| velocity_step(b, dt as int)),
{
    let n = bodies.len();
    let mut i: usize = 0;
    while i < n
        invariant
            i <= n,
            n == bodies.len(),
            n == old(bodies).len(),
            forall|j: int| 0 <= j < i ==> bodies[j] == velocity_step(old(bodies)[j], dt as int),
            forall|j: int| i <= j < n ==> bodies[j] == old(bodies)[j],
        decreases n - i,
    {
        let b = bodies[i];
        bodies.set(i, velocity_stepped(b, dt));
        i += 1;
    }
    assert(bodies@ =~= old(bodies)@.map_values(|b: Body| velocity_step(b, dt as int)));
}

/// Whether the body at `i` is a bird and no other body is.
pub open spec fn is_bird_at(s: Seq<Body>, i: int) -> bool {
    &&& 0 <= i < s.len()
    &&& s[i].category == Category::Bird
    &&& forall|j: int| 0 <= j < s.len() && (#[trigger] s[j]).category == Category::Bird ==> j == i
}

/// Whether exactly one of the bodies is a bird.
pub open spec fn has_single_bird(s: Seq<Body>) -> bool {
    exists|i: int| is_bird_at(s, i)
}

/// Where the bird stands among the bodies, if exactly one of them is a bird.
pub open spec fn bird_index(s: Seq<Body>) -> int {
    choose|i: int| is_bird_at(s, i)
}

/// The bird among the bodies, if exactly one of them is a bird.
pub open spec fn bird_of(s: Seq<Body>) -> Body {
    s[bird_index(s)]
}

/// Whether the bird has run into `other`: a body of another category that is
/// a collider and whose box overlaps the bird's.
pub open spec fn hits(bird: Body, other: Body) -> bool {
    &&& other.category != Category::Bird
    &&& other.collider
    &&& bird.overlaps(other)
}

/// The tag under which a collision with `other` is reported.
pub open spec fn hit_tag(other: Body) -> CategoryHit {
    match other.category {
        Category::Pipe => CategoryHit::Pipe,
        _ => CategoryHit::Wall,
    }
}

/// Whether the body at `i` is the first that the bird has run into.
pub open spec fn is_first_hit(s: Seq<Body>, i: int) -> bool {
    &&& 0 <= i < s.len()
    &&& hits(bird_of(s), s[i])
    &&& forall|j: int| 0 <= j < i ==> !hits(bird_of(s), #[trigger] s[j])
}

/// Whether the bird has run into any of the bodies.
pub open spec fn any_hit(s: Seq<Body>) -> bool {
    exists|i: int| 0 <= i < s.len() && hits(bird_of(s), #[trigger] s[i])
}

/// Finds the bird. The result is its index if exactly one body is a bird, and
/// `None` if none is or several are.
pub fn find_bird(bodies: &Vec<Body>) -> (r: Option<usize>)
    ensures
        match r {
            Some(i) => is_bird_at(bodies@, i as int),
            None => !has_single_bird(bodies@),
        },
{
    let n = bodies.len();
    let mut found: Option<usize> = None;
    let mut several = false;
    let ghost mut other: int = 0;
    let mut i: usize = 0;
    while i < n
        invariant
            i <= n,
            n == bodies.len(),
            match found {
                Some(f) => f < i && bodies[f as int].category == Category::Bird,
                None => !several && forall|j: int|
                    0 <= j < i ==> (#[trigger] bodies[j]).category != Category::Bird,
            },
            several ==> 0 <= other < i && other != found.unwrap() && bodies[other].category
                == Category::Bird,
            !several && found is Some ==> forall|j: int|
                0 <= j < i && (#[trigger] bodies[j]).category == Category::Bird ==> j
                    == found.unwrap(),
        decreases n - i,
    {
        match bodies[i].category {
            Category::Bird => {
                if found.is_some() {
                    several = true;
                    proof {
                        other = i as int;
                    }
                } else {
                    found = Some(i);
                }
            },
            _ => {},
        }
        i += 1;
    }
    if several {
        proof {
            let f = found.unwrap() as int;
            assert forall|k: int| !is_bird_at(bodies@, k) by {
                if is_bird_at(bodies@, k) {
                    assert(bodies@[f].category == Category::Bird);
                    assert(bodies@[other].category == Category::Bird);
                }
            }
        }
        None
    } else {
        found
    }
}

/// Tests the bird against every other collider.
///
/// While the round is in play, the result is the tag of the first body that
/// the bird has run into, and the round is over if there is one. Once the round
/// is over nothing is reported and nothing changes. The bodies are only read.
pub fn check_for_collisions(bodies: &Vec<Body>, state: &mut GameState) -> (hit: Option<
    CategoryHit,
>)
    requires
        *old(state) == GameState::Play ==> has_single_bird(bodies@),
    ensures
        *old(state) == GameState::GameOver ==> hit is None && *final(state) == GameState::GameOver,
        *old(state) == GameState::Play ==> (hit is Some <==> any_hit(bodies@)),
        *old(state) == GameState::Play ==> (*final(state) == GameState::GameOver <==> any_hit(
            bodies@,
        )),
        hit matches Some(tag) ==> exists|i: int|
            is_first_hit(bodies@, i) && tag == hit_tag(bodies@[i]),
{
    match *state {
        GameState::GameOver => {
            return None;
        },
        GameState::Play => {},
    }
    let n = bodies.len();
    let at = match find_bird(bodies) {
        Some(at) => at,
        None => {
            return None;
        },
    };
    let bird = bodies[at];
    assert(bird == bird_of(bodies@));
    let mut i: usize = 0;
    while i < n
        invariant
            i <= n,
            n == bodies.len(),
            bird == bird_of(bodies@),
            *state == GameState::Play,
            *old(state) == GameState::Play,
            forall|j: int| 0 <= j < i ==> !hits(bird, #[trigger] bodies@[j]),
        decreases n - i,
    {
        let other = &bodies[i];
        let tag = match other.category {
            Category::Bird => None,
            Category::Pipe => Some(CategoryHit::Pipe),
            Category::Wall => Some(CategoryHit::Wall),
        };
        if tag.is_some() && other.collider && collide(&bird, other) {
            *state = GameState::GameOver;
            assert(is_first_hit(bodies@, i as int));
            return tag;
        }
        i += 1;
    }
    None
}

/// Whether the bird has run into anything depends on the bird and on which
/// bodies there are, not on the order in which they stand.
pub proof fn hit_ignores_order(a: Seq<Body>, b: Seq<Body>)
    requires
        has_single_bird(a),
        has_single_bird(b),
        bird_of(a) == bird_of(b),
        forall|x: Body| a.contains(x) <==> b.contains(x),
    ensures
        any_hit(a) == any_hit(b),
{
    if any_hit(a) {
        let i = choose|i: int| 0 <= i < a.len() && hits(bird_of(a), #[trigger] a[i]);
        assert(a.contains(a[i]));
        assert(b.contains(a[i]));
        let j = choose|j: int| 0 <= j < b.len() && b[j] == a[i];
        assert(hits(bird_of(b), b[j]));
    }
    if any_hit(b) {
        let i = choose|i: int| 0 <= i < b.len() && hits(bird_of(b), #[trigger] b[i]);
        assert(b.contains(b[i]));
        assert(a.contains(b[i]));
        let j = choose|j: int| 0 <= j < a.len() && a[j] == b[i];
        assert(hits(bird_of(a), a[j]));
    }
}

/// Under gravity a vertical velocity above the lowest `i64` strictly drops in
/// every step of positive length, and nothing but the vertical velocity
/// changes.
pub proof fn gravity_strictly_decreases(b: Body, dt: int)
    requires
        dt > 0,
        b.gravity,
        b.velocity is Some,
        b.speed().y > i64::MIN,
    ensures
        gravity_step(b, dt).velocity is Some,
        gravity_step(b, dt).speed().y < b.speed().y,
        gravity_step(b, dt).speed().x == b.speed().x,
        gravity_step(b, dt).position == b.position,
{
    assert(GRAVITY * dt >= GRAVITY) by (nonlinear_arith)
        requires
            dt >= 1,
    ;
}

} // verus!
