//! A round as a whole: the bodies, the state of the round, the score and the
//! timer that spawns the pipes, advanced tick by tick.

use vstd::prelude::*;
use crate::base::{
    any_hit, apply_gravity, apply_velocity, bird_index, bird_of, check_for_collisions, find_bird,
    gravity_step, has_single_bird, hit_tag, is_bird_at, is_first_hit, velocity_step, CategoryHit,
    GameState, Scoreboard,
};
use crate::bird::{flap_step, move_bird, new_bird, setup};
use crate::body::{Body, Category};
use crate::pipes::{
    despawn_pipes, is_off_screen, move_pipes, pipe_setup, scroll_step, spawn_pipes,
    spawn_pipes_with, spawned, PipeTick, PIPE_SPACE_IN_MICROS,
};
use crate::walls::{wall_setup, walls};

verus! {

/// A round: every body, the state, the score and the spawn timer.
///
/// Exactly one of the bodies is a bird, and every body is well formed: `new`
/// and `from_parts` see to it and every tick keeps it, see `wf_view`.
#[derive(Clone, Debug, PartialEq, Eq)]
pub struct World {
    bodies: Vec<Body>,
    state: GameState,
    scoreboard: Scoreboard,
    pipe_tick: PipeTick,
}

/// What a round holds, as plain values.
pub struct WorldView {
    pub bodies: Seq<Body>,
    pub state: GameState,
    pub score: u32,
    pub period: u32,
    pub elapsed: u32,
}

/// Whether every body is well formed.
pub open spec fn all_wf(s: Seq<Body>) -> bool {
    forall|i: int| 0 <= i < s.len() ==> (#[trigger] s[i]).wf()
}

/// The bodies after the player's input: on a flap the bird has flapped.
pub open spec fn after_input(s: Seq<Body>, flap: bool) -> Seq<Body> {
    if flap {
        s.update(bird_index(s), flap_step(bird_of(s)))
    } else {
        s
    }
}

/// The bodies after one step of integration: gravity has acted, then every
/// body with a velocity has moved by it, then every pipe has scrolled.
pub open spec fn integrated(s: Seq<Body>, dt: int) -> Seq<Body> {
    s.map_values(|b: Body| gravity_step(b, dt)).map_values(|b: Body| velocity_step(b, dt)).map_values(
        |b: Body| scroll_step(b),
    )
}

/// The bodies as the collision test of a tick sees them: after the input and
/// the integration.
pub open spec fn moved(s: Seq<Body>, dt: u32, flap: bool) -> Seq<Body> {
    integrated(after_input(s, flap), dt as int)
}

/// A round after one tick of `dt` microseconds.
///
/// A round that is over stays as it is. Otherwise the input is applied and the
/// bodies are integrated. If the bird has then run into anything the round is
/// over, and the rest of the tick is left out. If not, the timer advances, a
/// pair of pipes for `draw` is spawned if it fires, and the pipes that have
/// left the arena are removed. The score is never changed.
pub open spec fn step(w: WorldView, dt: u32, flap: bool, draw: u32) -> WorldView {
    if w.state == GameState::GameOver {
        w
    } else if any_hit(moved(w.bodies, dt, flap)) {
        WorldView { bodies: moved(w.bodies, dt, flap), state: GameState::GameOver, ..w }
    } else {
        let fired = w.elapsed + dt >= w.period;
        let grown = if fired {
            spawned(moved(w.bodies, dt, flap), draw)
        } else {
            moved(w.bodies, dt, flap)
        };
        WorldView {
            bodies: grown.filter(|b: Body| !is_off_screen(b)),
            elapsed: ((w.elapsed + dt) % (w.period as int)) as u32,
            ..w
        }
    }
}

/// Bodies that keep their categories keep their single bird, at its place.
pub proof fn same_categories_keep_bird(before: Seq<Body>, after: Seq<Body>)
    requires
        has_single_bird(before),
        before.len() == after.len(),
        forall|i: int|
            0 <= i < before.len() ==> (#[trigger] after[i]).category == before[i].category,
    ensures
        has_single_bird(after),
        bird_index(after) == bird_index(before),
{
    let at = bird_index(before);
    assert(is_bird_at(before, at));
    assert forall|j: int| 0 <= j < after.len() && (#[trigger] after[j]).category
        == Category::Bird implies j == at by {
        assert(before[j].category == Category::Bird);
    }
    assert(is_bird_at(after, at));
    assert(is_bird_at(after, bird_index(after)));
}

/// Adding a body that is no bird keeps the single bird, at its place.
pub proof fn push_keeps_bird(s: Seq<Body>, b: Body)
    requires
        has_single_bird(s),
        b.category != Category::Bird,
    ensures
        has_single_bird(s.push(b)),
        bird_index(s.push(b)) == bird_index(s),
{
    let at = bird_index(s);
    let t = s.push(b);
    assert(is_bird_at(s, at));
    assert(t[at] == s[at]);
    assert forall|j: int| 0 <= j < t.len() && (#[trigger] t[j]).category
        == Category::Bird implies j == at by {
        if j < s.len() {
            assert(s[j] == t[j]);
        }
    }
    assert(is_bird_at(t, at));
    assert(is_bird_at(t, bird_index(t)));
}

/// Removing the pipes that have left the arena keeps the single bird and
/// keeps every body that stays well formed.
pub proof fn despawn_keeps_bird(s: Seq<Body>)
    requires
        has_single_bird(s),
    ensures
        has_single_bird(s.filter(|b: Body| !is_off_screen(b))),
        bird_of(s.filter(|b: Body| !is_off_screen(b))) == bird_of(s),
        all_wf(s) ==> all_wf(s.filter(|b: Body| !is_off_screen(b))),
    decreases s.len(),
{
    let keep = |b: Body| !is_off_screen(b);
    let at = bird_index(s);
    assert(is_bird_at(s, at));
    let t = s.drop_last();
    let last = s.last();
    assert(s =~= t.push(last));
    t.lemma_filter_push(last, keep);
    let ft = t.filter(keep);
    let fs = s.filter(keep);
    if all_wf(s) {
        assert forall|i: int| 0 <= i < fs.len() implies (#[trigger] fs[i]).wf() by {
            assert(fs.contains(fs[i]));
            s.lemma_filter_contains_rev(keep, fs[i]);
        }
    }
    if at == s.len() - 1 {
        assert forall|j: int| 0 <= j < ft.len() implies (#[trigger] ft[j]).category
            != Category::Bird by {
            assert(ft.contains(ft[j]));
            t.lemma_filter_contains_rev(keep, ft[j]);
            let k = choose|k: int| 0 <= k < t.len() && t[k] == ft[j];
            assert(s[k] == t[k]);
        }
        assert(keep(last));
        assert(fs == ft.push(last));
        let place = ft.len() as int;
        assert(fs[place] == last);
        assert(is_bird_at(fs, place));
        assert(is_bird_at(fs, bird_index(fs)));
    } else {
        assert(t[at] == s[at]);
        assert forall|j: int| 0 <= j < t.len() && (#[trigger] t[j]).category
            == Category::Bird implies j == at by {
            assert(s[j] == t[j]);
        }
        assert(is_bird_at(t, at));
        assert(is_bird_at(t, bird_index(t)));
        despawn_keeps_bird(t);
        assert(last.category != Category::Bird) by {
            assert(s[s.len() - 1] == last);
        }
        if keep(last) {
            push_keeps_bird(ft, last);
            assert(fs[bird_index(fs)] == ft[bird_index(ft)]);
        }
    }
}

/// What always holds of a round: exactly one body is a bird, every body is
/// well formed, and the timer has accumulated less than its positive period.
pub open spec fn wf_view(w: WorldView) -> bool {
    &&& has_single_bird(w.bodies)
    &&& all_wf(w.bodies)
    &&& w.period > 0
    &&& w.elapsed < w.period
}

/// A round as it starts: the bird and the four walls, in play, with no score
/// and a fresh timer.
pub open spec fn initial() -> WorldView {
    WorldView {
        bodies: seq![new_bird()] + walls(),
        state: GameState::Play,
        score: 0,
        period: PIPE_SPACE_IN_MICROS,
        elapsed: 0,
    }
}

/// The input and the integration change positions and velocities only: every
/// body keeps its category, its size and its flags. So they keep the single
/// bird at its place, and they keep every body well formed.
pub proof fn moving_keeps_bird(s: Seq<Body>, dt: u32, flap: bool)
    requires
        has_single_bird(s),
    ensures
        has_single_bird(after_input(s, flap)),
        has_single_bird(moved(s, dt, flap)),
        bird_index(moved(s, dt, flap)) == bird_index(s),
        moved(s, dt, flap).len() == s.len(),
        forall|i: int|
            0 <= i < s.len() ==> {
                let after = #[trigger] moved(s, dt, flap)[i];
                &&& after.category == s[i].category
                &&& after.half_extent == s[i].half_extent
                &&& after.collider == s[i].collider
                &&& after.gravity == s[i].gravity
                &&& after.velocity is Some <==> s[i].velocity is Some
            },
        all_wf(s) ==> all_wf(after_input(s, flap)) && all_wf(moved(s, dt, flap)),
{
    let at = bird_index(s);
    assert(is_bird_at(s, at));
    let a = after_input(s, flap);
    same_categories_keep_bird(s, a);
    let m = moved(s, dt, flap);
    same_categories_keep_bird(a, m);
    if all_wf(s) {
        assert forall|i: int| 0 <= i < a.len() implies (#[trigger] a[i]).wf() by {
            assert(s[i].wf());
        }
        assert forall|i: int| 0 <= i < m.len() implies (#[trigger] m[i]).wf() by {
            assert(a[i].wf());
        }
    }
}

/// Every tick keeps what always holds of a round.
pub proof fn step_keeps_wf(w: WorldView, dt: u32, flap: bool, draw: u32)
    requires
        wf_view(w),
    ensures
        wf_view(step(w, dt, flap, draw)),
{
    if w.state == GameState::Play {
        let m = moved(w.bodies, dt, flap);
        moving_keeps_bird(w.bodies, dt, flap);
        if !any_hit(m) {
            let total = w.elapsed + dt;
            let period = w.period as int;
            assert(0 <= total % period < period) by (nonlinear_arith)
                requires
                    period > 0,
            ;
            spawning_keeps_bird(m, draw);
            let grown = if total >= period {
                spawned(m, draw)
            } else {
                m
            };
            despawn_keeps_bird(grown);
        }
    }
}

/// Spawning a pair of pipes keeps the single bird at its place and keeps
/// every body well formed.
pub proof fn spawning_keeps_bird(s: Seq<Body>, draw: u32)
    requires
        has_single_bird(s),
    ensures
        has_single_bird(spawned(s, draw)),
        bird_index(spawned(s, draw)) == bird_index(s),
        all_wf(s) ==> all_wf(spawned(s, draw)),
{
    let pair = crate::pipes::pipe_pair(crate::pipes::pipe_positions(crate::pipes::spawn_x(), draw));
    push_keeps_bird(s, pair.top);
    push_keeps_bird(s.push(pair.top), pair.bottom);
    if all_wf(s) {
        let t = spawned(s, draw);
        assert forall|i: int| 0 <= i < t.len() implies (#[trigger] t[i]).wf() by {
            if i < s.len() {
                assert(t[i] == s[i]);
            }
        }
    }
}

/// A round that is over is not changed by any tick, whatever the input and
/// whatever the bird overlaps: the bodies, the state, the score and the timer
/// stay as they are.
pub proof fn over_is_final(w: WorldView, dt: u32, flap: bool, draw: u32)
    requires
        w.state == GameState::GameOver,
    ensures
        step(w, dt, flap, draw) == w,
{
}

/// No tick changes the score or the period of the timer, and no tick brings a
/// round that is over back into play. A round in play is over after a tick
/// exactly when the bird has run into something in it.
pub proof fn step_keeps_score(w: WorldView, dt: u32, flap: bool, draw: u32)
    ensures
        step(w, dt, flap, draw).score == w.score,
        step(w, dt, flap, draw).period == w.period,
        w.state == GameState::GameOver ==> step(w, dt, flap, draw).state == GameState::GameOver,
        w.state == GameState::Play ==> (step(w, dt, flap, draw).state == GameState::GameOver
            <==> any_hit(moved(w.bodies, dt, flap))),
{
}

/// Where the bird is after a tick of a round in play: it has taken the input,
/// fallen, moved by its velocity and, being no pipe, not scrolled.
pub proof fn bird_after_step(w: WorldView, dt: u32, flap: bool, draw: u32)
    requires
        wf_view(w),
        w.state == GameState::Play,
    ensures
        bird_of(step(w, dt, flap, draw).bodies) == velocity_step(
            gravity_step(
                if flap {
                    flap_step(bird_of(w.bodies))
                } else {
                    bird_of(w.bodies)
                },
                dt as int,
            ),
            dt as int,
        ),
{
    let at = bird_index(w.bodies);
    assert(is_bird_at(w.bodies, at));
    let m = moved(w.bodies, dt, flap);
    moving_keeps_bird(w.bodies, dt, flap);
    assert(bird_of(m) == m[at]);
    if !any_hit(m) {
        spawning_keeps_bird(m, draw);
        let grown = if w.elapsed + dt >= w.period {
            spawned(m, draw)
        } else {
            m
        };
        assert(grown[at] == m[at]);
        despawn_keeps_bird(grown);
    }
}

/// In a round in play, over a tick of positive length without a flap, the
/// vertical velocity of a bird under gravity strictly drops, unless it was the
/// lowest `i64` already.
pub proof fn bird_falls_faster(w: WorldView, dt: u32, draw: u32)
    requires
        wf_view(w),
        w.state == GameState::Play,
        dt > 0,
        bird_of(w.bodies).gravity,
        bird_of(w.bodies).velocity is Some,
        bird_of(w.bodies).speed().y > i64::MIN,
    ensures
        bird_of(step(w, dt, false, draw).bodies).speed().y < bird_of(w.bodies).speed().y,
{
    bird_after_step(w, dt, false, draw);
    crate::base::gravity_strictly_decreases(bird_of(w.bodies), dt as int);
}

impl View for World {
    type V = WorldView;

    closed spec fn view(&self) -> WorldView {
        WorldView {
            bodies: self.bodies@,
            state: self.state,
            score: self.scoreboard.score,
            period: self.pipe_tick.spec_period(),
            elapsed: self.pipe_tick.spec_elapsed(),
        }
    }
}

impl World {
    /// Starts a round.
    pub fn new() -> (r: World)
        ensures
            r@ == initial(),
            wf_view(r@),
    {
        let mut bodies: Vec<Body> = Vec::new();
        setup(&mut bodies);
        wall_setup(&mut bodies);
        let pipe_tick = pipe_setup();
        proof {
            assert(bodies@ =~= seq![new_bird()] + walls());
            assert(is_bird_at(bodies@, 0));
        }
        World { bodies, state: GameState::Play, scoreboard: Scoreboard { score: 0 }, pipe_tick }
    }

    /// Starts a round from given bodies and a given timer. The result is
    /// `None` unless exactly one body is a bird and every body is well formed.
    pub fn from_parts(bodies: Vec<Body>, pipe_tick: PipeTick) -> (r: Option<World>)
        ensures
            r is Some <==> has_single_bird(bodies@) && all_wf(bodies@),
            r matches Some(w) ==> wf_view(w@) && w@ == (WorldView {
                bodies: bodies@,
                state: GameState::Play,
                score: 0,
                period: pipe_tick.spec_period(),
                elapsed: pipe_tick.spec_elapsed(),
            }),
    {
        if find_bird(&bodies).is_none() {
            return None;
        }
        let n = bodies.len();
        let mut i: usize = 0;
        while i < n
            invariant
                i <= n,
                n == bodies.len(),
                forall|j: int| 0 <= j < i ==> (#[trigger] bodies[j]).wf(),
            decreases n - i,
        {
            if !bodies[i].is_valid() {
                return None;
            }
            i += 1;
        }
        let period = pipe_tick.period();
        let elapsed = pipe_tick.elapsed();
        Some(World { bodies, state: GameState::Play, scoreboard: Scoreboard { score: 0 }, pipe_tick })
    }

    /// Every body of the round.
    pub fn bodies(&self) -> (r: &Vec<Body>)
        ensures
            r@ == self@.bodies,
    {
        &self.bodies
    }

    /// Whether the round is as every round made by `new` or `from_parts` and
    /// advanced by ticks is.
    pub fn is_valid(&self) -> (r: bool)
        ensures
            r == wf_view(self@),
    {
        if find_bird(&self.bodies).is_none() {
            return false;
        }
        let n = self.bodies.len();
        let mut i: usize = 0;
        while i < n
            invariant
                i <= n,
                n == self.bodies.len(),
                forall|j: int| 0 <= j < i ==> (#[trigger] self.bodies[j]).wf(),
            decreases n - i,
        {
            if !self.bodies[i].is_valid() {
                return false;
            }
            i += 1;
        }
        let period = self.pipe_tick.period();
        let elapsed = self.pipe_tick.elapsed();
        true
    }

    /// The bird.
    pub fn bird(&self) -> (r: Body)
        requires
            wf_view(self@),
        ensures
            r == bird_of(self@.bodies),
            r.category == Category::Bird,
    {
        match find_bird(&self.bodies) {
            Some(at) => self.bodies[at],
            None => Body::bird(),
        }
    }

    /// The state of the round.
    pub fn state(&self) -> (r: GameState)
        ensures
            r == self@.state,
    {
        self.state
    }

    /// The score of the round.
    pub fn scoreboard(&self) -> (r: Scoreboard)
        ensures
            r.score == self@.score,
    {
        self.scoreboard
    }

    /// The timer that spawns the pipes.
    pub fn pipe_tick(&self) -> (r: PipeTick)
        ensures
            r.spec_period() == self@.period,
            r.spec_elapsed() == self@.elapsed,
    {
        self.pipe_tick
    }

    /// The first half of a tick of a round in play: the input, the
    /// integration and the collision test.
    fn advance(&mut self, dt: u32, flap: bool) -> (hit: Option<CategoryHit>)
        requires
            wf_view(old(self)@),
            old(self)@.state == GameState::Play,
        ensures
            final(self)@ == (WorldView {
                bodies: moved(old(self)@.bodies, dt, flap),
                state: if any_hit(moved(old(self)@.bodies, dt, flap)) {
                    GameState::GameOver
                } else {
                    GameState::Play
                },
                ..old(self)@
            }),
            hit is Some <==> any_hit(moved(old(self)@.bodies, dt, flap)),
            hit matches Some(tag) ==> exists|i: int|
                is_first_hit(moved(old(self)@.bodies, dt, flap), i) && tag == hit_tag(
                    moved(old(self)@.bodies, dt, flap)[i],
                ),
    {
        proof {
            moving_keeps_bird(self.bodies@, dt, flap);
        }
        move_bird(&mut self.bodies, flap);
        apply_gravity(&mut self.bodies, dt);
        apply_velocity(&mut self.bodies, dt);
        move_pipes(&mut self.bodies);
        check_for_collisions(&self.bodies, &mut self.state)
    }

    /// Advances the round by one tick of `dt` microseconds, with the player's
    /// input and with the draw that places the opening of a pair of pipes
    /// should one be spawned. Returns what the bird ran into in this tick.
    pub fn tick_with(&mut self, dt: u32, flap: bool, draw: u32) -> (hit: Option<CategoryHit>)
        requires
            wf_view(old(self)@),
        ensures
            final(self)@ == step(old(self)@, dt, flap, draw),
            wf_view(final(self)@),
            hit is Some <==> old(self)@.state == GameState::Play && any_hit(
                moved(old(self)@.bodies, dt, flap),
            ),
            hit matches Some(tag) ==> exists|i: int|
                is_first_hit(moved(old(self)@.bodies, dt, flap), i) && tag == hit_tag(
                    moved(old(self)@.bodies, dt, flap)[i],
                ),
    {
        proof {
            step_keeps_wf(self@, dt, flap, draw);
        }
        match self.state {
            GameState::GameOver => {
                return None;
            },
            GameState::Play => {},
        }
        let hit = self.advance(dt, flap);
        if hit.is_some() {
            return hit;
        }
        spawn_pipes_with(&mut self.bodies, &mut self.pipe_tick, dt, draw);
        despawn_pipes(&mut self.bodies);
        None
    }

    /// Advances the round by one tick of `dt` microseconds, with the player's
    /// input. Should a pair of pipes be spawned, its opening is placed at
    /// random: the round ends up as some draw makes it. Returns what the bird
    /// ran into in this tick.
    pub fn tick(&mut self, dt: u32, flap: bool) -> (hit: Option<CategoryHit>)
        requires
            wf_view(old(self)@),
        ensures
            exists|draw: u32| final(self)@ == step(old(self)@, dt, flap, draw),
            wf_view(final(self)@),
            hit is Some <==> old(self)@.state == GameState::Play && any_hit(
                moved(old(self)@.bodies, dt, flap),
            ),
            hit matches Some(tag) ==> exists|i: int|
                is_first_hit(moved(old(self)@.bodies, dt, flap), i) && tag == hit_tag(
                    moved(old(self)@.bodies, dt, flap)[i],
                ),
    {
        match self.state {
            GameState::GameOver => {
                proof {
                    assert(self@ == step(self@, dt, flap, 0));
                }
                return None;
            },
            GameState::Play => {},
        }
        let hit = self.advance(dt, flap);
        if hit.is_some() {
            proof {
                step_keeps_wf(old(self)@, dt, flap, 0);
                assert(self@ == step(old(self)@, dt, flap, 0));
            }
            return hit;
        }
        let ghost before = self.bodies@;
        let fired = spawn_pipes(&mut self.bodies, &mut self.pipe_tick, dt);
        let ghost draw = if fired {
            choose|draw: u32| self.bodies@ == spawned(before, draw)
        } else {
            0u32
        };
        despawn_pipes(&mut self.bodies);
        proof {
            step_keeps_wf(old(self)@, dt, flap, draw);
            assert(self@ == step(old(self)@, dt, flap, draw));
        }
        None
    }
}

} // verus!
