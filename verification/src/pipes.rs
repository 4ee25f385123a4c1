//! Pipes: pairs of obstacles that are spawned on a fixed cadence at the right
//! of the arena, scroll to the left and are removed once they have left it.

use vstd::prelude::*;
use crate::body::{Body, Category, Vec2};
use crate::fixed::{saturate, saturating};
use crate::walls::{LEFT_WALL, RIGHT_WALL, TOP_WALL};

verus! {

/// The width of a pipe.
pub const PIPE_WIDTH: i64 = 50_000_000;

/// The height of a pipe.
pub const PIPE_HEIGHT: i64 = 400_000_000;

/// The time between two pairs of pipes, in microseconds.
pub const PIPE_SPACE_IN_MICROS: u32 = 3_000_000;

/// The height of the opening between the two pipes of a pair.
pub const PIPE_GAP: i64 = 200_000_000;

/// How far a pipe scrolls to the left in one tick, whatever the tick's length.
pub const SCROLL_SPEED: i64 = 1_000_000;

/// A repeating timer: it accumulates time and fires whenever a full period has
/// gone by, keeping what is left over.
///
/// The period is positive and the accumulated time is always less than it.
#[derive(Clone, Copy, Debug, PartialEq, Eq)]
pub struct PipeTick {
    period: u32,
    elapsed: u32,
}

/// Advances a repeating `bevy::time::Timer` of the given period, which has
/// accumulated `elapsed`, by `delta` (all in microseconds), and returns what it
/// has accumulated afterwards and how often it finished during the tick.
///
/// The timer is made with `Timer::new` and `Timer::set_elapsed`, advanced with
/// `Timer::tick` and read with `Timer::elapsed` and
/// `Timer::times_finished_this_tick`. This is trusted, not proved: `tick` adds
/// `delta` to the accumulated time; once that reaches the period it counts the
/// whole periods in it and keeps the remainder. With `elapsed` below the
/// period the count fits `u32`.
#[verifier::external_body]
fn repeating_tick(period: u32, elapsed: u32, delta: u32) -> (r: (u32, u32))
    requires
        period > 0,
        elapsed < period,
    ensures
        r.0 == (elapsed + delta) % (period as int),
        r.1 == (elapsed + delta) / (period as int),
{
    let mut timer = bevy::time::Timer::new(
        core::time::Duration::from_micros(period as u64),
        bevy::time::TimerMode::Repeating,
    );
    timer.set_elapsed(core::time::Duration::from_micros(elapsed as u64));
    timer.tick(core::time::Duration::from_micros(delta as u64));
    (timer.elapsed().as_micros() as u32, timer.times_finished_this_tick())
}

impl PipeTick {
    #[verifier::type_invariant]
    spec fn inv(self) -> bool {
        self.period > 0 && self.elapsed < self.period
    }

    /// The period of the timer, in microseconds.
    pub closed spec fn spec_period(&self) -> u32 {
        self.period
    }

    /// The time that the timer has accumulated, in microseconds.
    pub closed spec fn spec_elapsed(&self) -> u32 {
        self.elapsed
    }

    /// Makes a timer of the given period that has accumulated nothing; `None`
    /// if the period is zero.
    pub fn new(period: u32) -> (r: Option<PipeTick>)
        ensures
            period == 0 <==> r is None,
            r matches Some(t) ==> t.spec_period() == period && t.spec_elapsed() == 0,
    {
        if period == 0 {
            None
        } else {
            Some(PipeTick { period, elapsed: 0 })
        }
    }

    #[verifier::when_used_as_spec(spec_period)]
    pub fn period(&self) -> (r: u32)
        ensures
            r == self.spec_period(),
            r > 0,
    {
        proof {
            use_type_invariant(self);
        }
        self.period
    }

    #[verifier::when_used_as_spec(spec_elapsed)]
    pub fn elapsed(&self) -> (r: u32)
        ensures
            r == self.spec_elapsed(),
            r < self.spec_period(),
    {
        proof {
            use_type_invariant(self);
        }
        self.elapsed
    }

    /// Advances the timer by `delta` microseconds and says whether it fired.
    ///
    /// It fires when the accumulated time reaches the period. It then keeps the
    /// remainder, and fires once however many periods have gone by.
    pub fn tick(&mut self, delta: u32) -> (fired: bool)
        ensures
            final(self).spec_period() == old(self).spec_period(),
            final(self).spec_elapsed() == (old(self).spec_elapsed() + delta) % (old(
                self,
            ).spec_period() as int),
            fired <==> old(self).spec_elapsed() + delta >= old(self).spec_period(),
    {
        proof {
            use_type_invariant(&*self);
        }
        let (elapsed, times) = repeating_tick(self.period, self.elapsed, delta);
        proof {
            let total = self.elapsed + delta;
            let period = self.period as int;
            assert(total / period > 0 <==> total >= period) by (nonlinear_arith)
                requires
                    period > 0,
                    total >= 0,
            ;
            assert(0 <= total % period < period) by (nonlinear_arith)
                requires
                    period > 0,
            ;
        }
        self.elapsed = elapsed;
        times > 0
    }
}

/// Makes the timer that spawns the pipes.
pub fn pipe_setup() -> (r: PipeTick)
    ensures
        r.spec_period() == PIPE_SPACE_IN_MICROS,
        r.spec_elapsed() == 0,
{
    PipeTick { period: PIPE_SPACE_IN_MICROS, elapsed: 0 }
}

/// Where the two pipes of a pair are centred.
#[derive(Clone, Copy, Debug, PartialEq, Eq)]
pub struct PipePositions {
    pub top: Vec2,
    pub bottom: Vec2,
}

/// The two pipes of a pair.
#[derive(Clone, Copy, Debug, PartialEq, Eq)]
pub struct PipePair {
    pub top: Body,
    pub bottom: Body,
}

/// Where a new pair of pipes is centred on the horizontal axis: beyond the
/// right wall by the width of a pipe.
pub open spec fn spawn_x() -> i64 {
    (RIGHT_WALL + PIPE_WIDTH) as i64
}

/// How far above its lowest place the opening of a pair lies, for a draw of
/// 32 random bits. The upper 24 bits of the draw, read as a fraction of one,
/// are taken of `TOP_WALL` and rounded down, so the result is at least zero
/// and less than `TOP_WALL`.
pub open spec fn gap_offset(draw: u32) -> int {
    (draw / 256) * TOP_WALL / 16_777_216
}

/// Where the two pipes of a pair stand for a given draw. The top pipe is
/// centred half a pipe's height plus the offset above zero, the bottom pipe
/// lower by the opening and the height of a pipe.
pub open spec fn pipe_positions(pos_x: i64, draw: u32) -> PipePositions {
    PipePositions {
        top: Vec2 { x: pos_x, y: (PIPE_HEIGHT / 2 + gap_offset(draw)) as i64 },
        bottom: Vec2 {
            x: pos_x,
            y: (PIPE_HEIGHT / 2 + gap_offset(draw) - PIPE_GAP - PIPE_HEIGHT) as i64,
        },
    }
}

/// A pipe centred at `position`: a collider of category `Pipe` without a
/// velocity of its own.
pub open spec fn pipe_body(position: Vec2) -> Body {
    Body {
        category: Category::Pipe,
        position,
        velocity: None,
        half_extent: Vec2 { x: (PIPE_WIDTH / 2) as i64, y: (PIPE_HEIGHT / 2) as i64 },
        collider: true,
        gravity: false,
    }
}

/// The pair of pipes that stands at the given positions.
pub open spec fn pipe_pair(positions: PipePositions) -> PipePair {
    PipePair { top: pipe_body(positions.top), bottom: pipe_body(positions.bottom) }
}

/// A pipe after one tick of scrolling: it has moved to the left by
/// `SCROLL_SPEED`, saturating at the lowest `i64`. Other bodies stay.
pub open spec fn scroll_step(b: Body) -> Body {
    if b.category == Category::Pipe {
        Body {
            position: Vec2 { x: saturate(b.position.x - SCROLL_SPEED) as i64, y: b.position.y },
            ..b
        }
    } else {
        b
    }
}

/// Draws 32 random bits with `rand::random`. Nothing is claimed of them.
#[verifier::external_body]
fn random_draw() -> (r: u32) {
    rand::random::<u32>()
}

fn offset_of(draw: u32) -> (r: i64)
    ensures
        r == gap_offset(draw),
        0 <= r < TOP_WALL,
{
    let fraction: u64 = (draw / 256) as u64;
    let span: u64 = TOP_WALL as u64;
    assert(0 <= fraction * span <= 16_777_215 * 300_000_000) by (nonlinear_arith)
        requires
            0 <= fraction <= 16_777_215,
            span == 300_000_000,
    ;
    (fraction * span / 16_777_216) as i64
}

/// Where the two pipes of a pair stand at `pos_x` for a given draw.
pub fn pipe_positions_at(pos_x: i64, draw: u32) -> (r: PipePositions)
    ensures
        r == pipe_positions(pos_x, draw),
{
    let top_pipe_y = PIPE_HEIGHT / 2 + offset_of(draw);
    let bottom_pipe_y = top_pipe_y - PIPE_GAP - PIPE_HEIGHT;
    PipePositions {
        top: Vec2 { x: pos_x, y: top_pipe_y },
        bottom: Vec2 { x: pos_x, y: bottom_pipe_y },
    }
}

/// Where the two pipes of a pair stand at `pos_x`, with the opening at a
/// random height: the positions that some draw gives.
pub fn get_random_pipe_positions_at(pos_x: i64) -> (r: PipePositions)
    ensures
        exists|draw: u32| r == pipe_positions(pos_x, draw),
{
    let draw = random_draw();
    pipe_positions_at(pos_x, draw)
}

impl Body {
    /// Makes a pipe centred at `position`.
    pub fn pipe(position: Vec2) -> (r: Body)
        ensures
            r == pipe_body(position),
            r.wf(),
    {
        Body {
            category: Category::Pipe,
            position,
            velocity: None,
            half_extent: Vec2 { x: PIPE_WIDTH / 2, y: PIPE_HEIGHT / 2 },
            collider: true,
            gravity: false,
        }
    }
}

impl PipePair {
    /// Makes the two pipes that stand at the given positions.
    pub fn new(positions: &PipePositions) -> (r: PipePair)
        ensures
            r == pipe_pair(*positions),
    {
        let top = Body::pipe(positions.top);
        let bottom = Body::pipe(positions.bottom);
        PipePair { top, bottom }
    }
}

/// Whatever the draw and wherever the pair stands, the bottom edge of the top
/// pipe lies above the top edge of the bottom pipe by exactly `PIPE_GAP`, the
/// two pipes share their horizontal position, and the opening starts between
/// `-PIPE_GAP` and `TOP_WALL - PIPE_GAP`.
pub proof fn pair_opens_by_gap(pos_x: i64, draw: u32)
    ensures
        ({
            let pair = pipe_pair(pipe_positions(pos_x, draw));
            &&& pair.top.bottom() - pair.bottom.top() == PIPE_GAP
            &&& pair.bottom.top() < pair.top.bottom()
            &&& pair.top.position.x == pos_x
            &&& pair.bottom.position.x == pos_x
            &&& pair.bottom.top() == gap_offset(draw) - PIPE_GAP
            &&& 0 <= gap_offset(draw) < TOP_WALL
            &&& pair.top.wf()
            &&& pair.bottom.wf()
        }),
{
    let fraction = (draw / 256) as int;
    assert(0 <= fraction * TOP_WALL <= 16_777_215 * TOP_WALL) by (nonlinear_arith)
        requires
            0 <= fraction <= 16_777_215,
    ;
}

/// Scrolls every pipe to the left by `SCROLL_SPEED`.
pub fn move_pipes(bodies: &mut Vec<Body>)
    ensures
        final(bodies)@ == old(bodies)@.map_values(|b: Body| scroll_step(b)),
{
    let n = bodies.len();
    let mut i: usize = 0;
    while i < n
        invariant
            i <= n,
            n == bodies.len(),
            n == old(bodies).len(),
            forall|j: int| 0 <= j < i ==> bodies[j] == scroll_step(old(bodies)[j]),
            forall|j: int| i <= j < n ==> bodies[j] == old(bodies)[j],
        decreases n - i,
    {
        let b = bodies[i];
        match b.category {
            Category::Pipe => {
                let x = saturating(b.position.x as i128 - SCROLL_SPEED as i128);
                bodies.set(i, Body { position: Vec2 { x, y: b.position.y }, ..b });
            },
            _ => {},
        }
        i += 1;
    }
    assert(bodies@ =~= old(bodies)@.map_values(|b: Body| scroll_step(b)));
}

/// The bodies after a pair of pipes for the given draw has been spawned: the
/// top pipe and then the bottom pipe are added at the end.
pub open spec fn spawned(s: Seq<Body>, draw: u32) -> Seq<Body> {
    let pair = pipe_pair(pipe_positions(spawn_x(), draw));
    s.push(pair.top).push(pair.bottom)
}

/// Whether a pipe has left the arena for good: it is centred more than the
/// width of a pipe to the left of the left wall. Only pipes ever leave.
pub open spec fn is_off_screen(b: Body) -> bool {
    b.category == Category::Pipe && b.position.x < LEFT_WALL - PIPE_WIDTH
}

/// Advances the timer by `dt` microseconds and, if it fires, spawns the pair
/// of pipes that `draw` gives. Says whether it did.
pub fn spawn_pipes_with(bodies: &mut Vec<Body>, timer: &mut PipeTick, dt: u32, draw: u32) -> (fired:
    bool)
    ensures
        final(timer).spec_period() == old(timer).spec_period(),
        final(timer).spec_elapsed() == (old(timer).spec_elapsed() + dt) % (old(
            timer,
        ).spec_period() as int),
        fired <==> old(timer).spec_elapsed() + dt >= old(timer).spec_period(),
        fired ==> final(bodies)@ == spawned(old(bodies)@, draw),
        !fired ==> final(bodies)@ == old(bodies)@,
{
    let fired = timer.tick(dt);
    if fired {
        let positions = pipe_positions_at(RIGHT_WALL + PIPE_WIDTH, draw);
        let pair = PipePair::new(&positions);
        bodies.push(pair.top);
        bodies.push(pair.bottom);
    }
    fired
}

/// Advances the timer by `dt` microseconds and, if it fires, spawns one pair
/// of pipes with the opening at a random height. Says whether it did.
pub fn spawn_pipes(bodies: &mut Vec<Body>, timer: &mut PipeTick, dt: u32) -> (fired: bool)
    ensures
        final(timer).spec_period() == old(timer).spec_period(),
        final(timer).spec_elapsed() == (old(timer).spec_elapsed() + dt) % (old(
            timer,
        ).spec_period() as int),
        fired <==> old(timer).spec_elapsed() + dt >= old(timer).spec_period(),
        fired ==> exists|draw: u32| final(bodies)@ == spawned(old(bodies)@, draw),
        !fired ==> final(bodies)@ == old(bodies)@,
{
    let fired = timer.tick(dt);
    if fired {
        let draw = random_draw();
        let positions = pipe_positions_at(RIGHT_WALL + PIPE_WIDTH, draw);
        let pair = PipePair::new(&positions);
        bodies.push(pair.top);
        bodies.push(pair.bottom);
        assert(bodies@ == spawned(old(bodies)@, draw));
    }
    fired
}

/// Removes every pipe that has left the arena and keeps all other bodies in
/// their order.
pub fn despawn_pipes(bodies: &mut Vec<Body>)
    ensures
        final(bodies)@ == old(bodies)@.filter(|b: Body| !is_off_screen(b)),
{
    let ghost keep = |b: Body| !is_off_screen(b);
    let n = bodies.len();
    let mut kept: Vec<Body> = Vec::new();
    let mut i: usize = 0;
    assert(bodies@.take(0) =~= Seq::<Body>::empty());
    assert(Seq::<Body>::empty().filter(keep) =~= Seq::<Body>::empty()) by {
        reveal(Seq::filter);
    }
    while i < n
        invariant
            i <= n,
            n == bodies.len(),
            bodies@ == old(bodies)@,
            keep == |b: Body| !is_off_screen(b),
            kept@ == bodies@.take(i as int).filter(keep),
        decreases n - i,
    {
        let b = bodies[i];
        let gone = match b.category {
            Category::Pipe => b.position.x < LEFT_WALL - PIPE_WIDTH,
            _ => false,
        };
        proof {
            assert(bodies@.take(i as int + 1) =~= bodies@.take(i as int).push(b));
            bodies@.take(i as int).lemma_filter_push(b, keep);
        }
        if !gone {
            kept.push(b);
        }
        i += 1;
    }
    assert(bodies@.take(n as int) =~= bodies@);
    *bodies = kept;
}

/// A pipe is removed exactly when its right edge lies to the left of the left
/// wall by more than half the width of a pipe. A pipe that is removed lies
/// wholly to the left of the left wall, and so does not show.
pub proof fn despawn_bound(position: Vec2)
    ensures
        is_off_screen(pipe_body(position)) <==> pipe_body(position).right() < LEFT_WALL
            - PIPE_WIDTH / 2,
        is_off_screen(pipe_body(position)) ==> pipe_body(position).right() < LEFT_WALL,
{
}

/// A pipe is spawned wholly to the right of the right wall, and scrolling
/// keeps its height, its size and what it is.
pub proof fn pipes_enter_from_the_right(draw: u32, b: Body)
    ensures
        pipe_pair(pipe_positions(spawn_x(), draw)).top.left() > RIGHT_WALL,
        pipe_pair(pipe_positions(spawn_x(), draw)).bottom.left() > RIGHT_WALL,
        !is_off_screen(pipe_pair(pipe_positions(spawn_x(), draw)).top),
        !is_off_screen(pipe_pair(pipe_positions(spawn_x(), draw)).bottom),
        scroll_step(b).position.y == b.position.y,
        scroll_step(b).half_extent == b.half_extent,
        scroll_step(b).category == b.category,
        b.category == Category::Pipe && b.position.x > i64::MIN ==> scroll_step(b).position.x
            < b.position.x,
{
}

} // verus!
