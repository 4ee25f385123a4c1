//! Kinematic bodies: where an entity is, how it moves and how large it is.

use vstd::prelude::*;

verus! {

/// A point or a displacement in the plane, in micro-units.
#[derive(Clone, Copy, Debug, PartialEq, Eq)]
pub struct Vec2 {
    pub x: i64,
    pub y: i64,
}

impl Vec2 {
    pub fn new(x: i64, y: i64) -> (r: Vec2)
        ensures
            r.x == x,
            r.y == y,
    {
        Vec2 { x, y }
    }
}

/// A velocity, in micro-units per second.
#[derive(Clone, Copy, Debug, PartialEq, Eq)]
pub struct Velocity(pub Vec2);

/// What kind of entity a body belongs to. It never changes after the body is
/// made.
#[derive(Clone, Copy, Debug, PartialEq, Eq, Structural)]
pub enum Category {
    Bird,
    Pipe,
    Wall,
}

/// One entity of the simulation.
///
/// `velocity` is present on the bodies that move by their own velocity and
/// absent on the others. `gravity` marks the bodies whose velocity gravity
/// changes, `collider` those that the collision test sees.
#[derive(Clone, Copy, Debug, PartialEq, Eq)]
pub struct Body {
    pub category: Category,
    pub position: Vec2,
    pub velocity: Option<Velocity>,
    pub half_extent: Vec2,
    pub collider: bool,
    pub gravity: bool,
}

impl Body {
    /// A body is well formed when its half extent is not negative and, if it
    /// is a pipe, it has no velocity of its own: pipes move by scrolling only.
    pub open spec fn wf(self) -> bool {
        &&& self.half_extent.x >= 0
        &&& self.half_extent.y >= 0
        &&& self.category == Category::Pipe ==> self.velocity is None
    }

    /// The velocity of the body; zero where it has none.
    pub open spec fn speed(self) -> Vec2 {
        match self.velocity {
            Some(v) => v.0,
            None => Vec2 { x: 0, y: 0 },
        }
    }

    pub open spec fn left(self) -> int {
        self.position.x - self.half_extent.x
    }

    pub open spec fn right(self) -> int {
        self.position.x + self.half_extent.x
    }

    pub open spec fn bottom(self) -> int {
        self.position.y - self.half_extent.y
    }

    pub open spec fn top(self) -> int {
        self.position.y + self.half_extent.y
    }

    /// Two boxes overlap when their interiors meet on both axes. Boxes that
    /// only touch along an edge or at a corner do not overlap.
    pub open spec fn overlaps(self, other: Body) -> bool {
        &&& self.left() < other.right()
        &&& self.right() > other.left()
        &&& self.bottom() < other.top()
        &&& self.top() > other.bottom()
    }

    /// Whether the body is well formed.
    pub fn is_valid(&self) -> (r: bool)
        ensures
            r == self.wf(),
    {
        let pipe_moves = match self.category {
            Category::Pipe => self.velocity.is_some(),
            _ => false,
        };
        self.half_extent.x >= 0 && self.half_extent.y >= 0 && !pipe_moves
    }
}

/// Tests two boxes for overlap.
pub fn collide(a: &Body, b: &Body) -> (r: bool)
    ensures
        r == a.overlaps(*b),
{
    let a_left: i128 = a.position.x as i128 - a.half_extent.x as i128;
    let a_right: i128 = a.position.x as i128 + a.half_extent.x as i128;
    let a_bottom: i128 = a.position.y as i128 - a.half_extent.y as i128;
    let a_top: i128 = a.position.y as i128 + a.half_extent.y as i128;
    let b_left: i128 = b.position.x as i128 - b.half_extent.x as i128;
    let b_right: i128 = b.position.x as i128 + b.half_extent.x as i128;
    let b_bottom: i128 = b.position.y as i128 - b.half_extent.y as i128;
    let b_top: i128 = b.position.y as i128 + b.half_extent.y as i128;
    a_left < b_right && a_right > b_left && a_bottom < b_top && a_top > b_bottom
}

/// The overlap test does not depend on which box is named first.
pub proof fn overlap_symmetric(a: Body, b: Body)
    ensures
        a.overlaps(b) == b.overlaps(a),
{
}

/// Boxes whose intersection has positive width and positive height overlap:
/// on each axis the larger of the two lower edges lies strictly below the
/// smaller of the two upper edges.
pub proof fn positive_intersection_is_overlap(a: Body, b: Body)
    requires
        vstd::math::max(a.left(), b.left()) < vstd::math::min(a.right(), b.right()),
        vstd::math::max(a.bottom(), b.bottom()) < vstd::math::min(a.top(), b.top()),
    ensures
        a.overlaps(b),
{
}

/// Boxes that are apart on some axis, or that only touch there, do not
/// overlap.
pub proof fn apart_or_touching_is_no_overlap(a: Body, b: Body)
    requires
        a.right() <= b.left() || b.right() <= a.left() || a.top() <= b.bottom() || b.top()
            <= a.bottom(),
    ensures
        !a.overlaps(b),
{
}

} // verus!
