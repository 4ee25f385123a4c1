//! The arena: a rectangle bounded by four walls.

use vstd::prelude::*;
use crate::body::{Body, Category, Vec2};

verus! {

/// Where the left wall stands on the horizontal axis.
pub const LEFT_WALL: i64 = -350_000_000;

/// Where the right wall stands on the horizontal axis.
pub const RIGHT_WALL: i64 = 350_000_000;

/// Where the bottom wall stands on the vertical axis.
pub const BOTTOM_WALL: i64 = -300_000_000;

/// Where the top wall stands on the vertical axis.
pub const TOP_WALL: i64 = 300_000_000;

/// How thick a wall is.
pub const WALL_THICKNESS: i64 = 10_000_000;

/// Which side of the arena a wall is on.
#[derive(Clone, Copy, Debug, PartialEq, Eq, Structural)]
pub enum WallLocation {
    Left,
    Right,
    Bottom,
    Top,
}

impl WallLocation {
    /// The centre of the wall.
    pub open spec fn centre(self) -> Vec2 {
        match self {
            WallLocation::Left => Vec2 { x: LEFT_WALL, y: 0 },
            WallLocation::Right => Vec2 { x: RIGHT_WALL, y: 0 },
            WallLocation::Bottom => Vec2 { x: 0, y: BOTTOM_WALL },
            WallLocation::Top => Vec2 { x: 0, y: TOP_WALL },
        }
    }

    /// The width and height of the wall. A side wall is as high as the arena
    /// and a bottom or top wall as wide, each longer by the thickness of a wall
    /// so that the four close the corners.
    pub open spec fn extent(self) -> Vec2 {
        match self {
            WallLocation::Left | WallLocation::Right => Vec2 {
                x: WALL_THICKNESS,
                y: (TOP_WALL - BOTTOM_WALL + WALL_THICKNESS) as i64,
            },
            WallLocation::Bottom | WallLocation::Top => Vec2 {
                x: (RIGHT_WALL - LEFT_WALL + WALL_THICKNESS) as i64,
                y: WALL_THICKNESS,
            },
        }
    }

    /// The wall as a body: a collider at rest, of category `Wall`.
    pub open spec fn body(self) -> Body {
        Body {
            category: Category::Wall,
            position: self.centre(),
            velocity: None,
            half_extent: Vec2 {
                x: (self.extent().x / 2) as i64,
                y: (self.extent().y / 2) as i64,
            },
            collider: true,
            gravity: false,
        }
    }

    pub fn position(&self) -> (r: Vec2)
        ensures
            r == self.centre(),
    {
        match self {
            WallLocation::Left => Vec2 { x: LEFT_WALL, y: 0 },
            WallLocation::Right => Vec2 { x: RIGHT_WALL, y: 0 },
            WallLocation::Bottom => Vec2 { x: 0, y: BOTTOM_WALL },
            WallLocation::Top => Vec2 { x: 0, y: TOP_WALL },
        }
    }

    pub fn size(&self) -> (r: Vec2)
        ensures
            r == self.extent(),
            r.x > 0,
            r.y > 0,
    {
        let arena_height = TOP_WALL - BOTTOM_WALL;
        let arena_width = RIGHT_WALL - LEFT_WALL;
        match self {
            WallLocation::Left | WallLocation::Right => Vec2 {
                x: WALL_THICKNESS,
                y: arena_height + WALL_THICKNESS,
            },
            WallLocation::Bottom | WallLocation::Top => Vec2 {
                x: arena_width + WALL_THICKNESS,
                y: WALL_THICKNESS,
            },
        }
    }
}

impl Body {
    /// Makes the wall on the given side of the arena.
    pub fn wall(location: WallLocation) -> (r: Body)
        ensures
            r == location.body(),
            r.wf(),
    {
        let size = location.size();
        Body {
            category: Category::Wall,
            position: location.position(),
            velocity: None,
            half_extent: Vec2 { x: size.x / 2, y: size.y / 2 },
            collider: true,
            gravity: false,
        }
    }
}

/// The four walls, in the order left, right, bottom, top.
pub open spec fn walls() -> Seq<Body> {
    seq![
        WallLocation::Left.body(),
        WallLocation::Right.body(),
        WallLocation::Bottom.body(),
        WallLocation::Top.body(),
    ]
}

/// Adds the four walls to the bodies.
pub fn wall_setup(bodies: &mut Vec<Body>)
    ensures
        final(bodies)@ == old(bodies)@ + walls(),
{
    bodies.push(Body::wall(WallLocation::Left));
    bodies.push(Body::wall(WallLocation::Right));
    bodies.push(Body::wall(WallLocation::Bottom));
    bodies.push(Body::wall(WallLocation::Top));
    assert(bodies@ =~= old(bodies)@ + walls());
}

/// The arena has positive width and height, and the walls frame it: the inner
/// faces of the side walls are half a wall's thickness inside `LEFT_WALL` and
/// `RIGHT_WALL`, and likewise for the bottom and the top.
pub proof fn arena_is_framed()
    ensures
        RIGHT_WALL - LEFT_WALL > 0,
        TOP_WALL - BOTTOM_WALL > 0,
        WallLocation::Left.body().right() == LEFT_WALL + WALL_THICKNESS / 2,
        WallLocation::Right.body().left() == RIGHT_WALL - WALL_THICKNESS / 2,
        WallLocation::Bottom.body().top() == BOTTOM_WALL + WALL_THICKNESS / 2,
        WallLocation::Top.body().bottom() == TOP_WALL - WALL_THICKNESS / 2,
        WallLocation::Left.body().top() == WallLocation::Top.body().top(),
        WallLocation::Left.body().bottom() == WallLocation::Bottom.body().bottom(),
        WallLocation::Right.body().top() == WallLocation::Top.body().top(),
        WallLocation::Right.body().bottom() == WallLocation::Bottom.body().bottom(),
{
}

} // verus!
