use rusty_bird::base::{CategoryHit, GameState};
use rusty_bird::bird::BIRD_SPEED;
use rusty_bird::body::{Body, Category, Vec2, Velocity};
use rusty_bird::fixed::UNIT;
use rusty_bird::pipes::{pipe_setup, PipeTick, PIPE_GAP};
use rusty_bird::walls::{wall_setup, WallLocation, BOTTOM_WALL, LEFT_WALL, RIGHT_WALL, TOP_WALL};
use rusty_bird::world::World;

const TICK: u32 = 15_625;

fn pipes_of(world: &World) -> Vec<Body> {
    world.bodies().iter().copied().filter(|b| b.category == Category::Pipe).collect()
}

#[test]
fn walls_stand_where_the_arena_ends() {
    assert_eq!(LEFT_WALL, -350 * UNIT);
    assert_eq!(RIGHT_WALL, 350 * UNIT);
    assert_eq!(BOTTOM_WALL, -300 * UNIT);
    assert_eq!(TOP_WALL, 300 * UNIT);
    assert_eq!(WallLocation::Left.position(), Vec2::new(-350 * UNIT, 0));
    assert_eq!(WallLocation::Right.position(), Vec2::new(350 * UNIT, 0));
    assert_eq!(WallLocation::Bottom.position(), Vec2::new(0, -300 * UNIT));
    assert_eq!(WallLocation::Top.position(), Vec2::new(0, 300 * UNIT));
    assert_eq!(WallLocation::Left.size(), Vec2::new(10 * UNIT, 610 * UNIT));
    assert_eq!(WallLocation::Right.size(), Vec2::new(10 * UNIT, 610 * UNIT));
    assert_eq!(WallLocation::Bottom.size(), Vec2::new(710 * UNIT, 10 * UNIT));
    assert_eq!(WallLocation::Top.size(), Vec2::new(710 * UNIT, 10 * UNIT));
}

#[test]
fn wall_setup_adds_four_walls_in_order() {
    let mut bodies = vec![Body::bird()];
    wall_setup(&mut bodies);
    assert_eq!(bodies.len(), 5);
    assert_eq!(bodies[0], Body::bird());
    let sides = [WallLocation::Left, WallLocation::Right, WallLocation::Bottom, WallLocation::Top];
    for (i, side) in sides.iter().enumerate() {
        let wall = bodies[i + 1];
        assert_eq!(wall, Body::wall(*side));
        assert_eq!(wall.category, Category::Wall);
        assert_eq!(wall.position, side.position());
        assert_eq!(wall.half_extent.x * 2, side.size().x);
        assert_eq!(wall.half_extent.y * 2, side.size().y);
        assert_eq!(wall.velocity, None);
        assert!(wall.collider);
        assert!(!wall.gravity);
        assert!(wall.is_valid());
    }
}

#[test]
fn a_round_starts_with_the_bird_and_the_walls() {
    let world = World::new();
    assert!(world.is_valid());
    assert_eq!(world.state(), GameState::Play);
    assert_eq!(world.scoreboard().score, 0);
    assert_eq!(world.pipe_tick(), pipe_setup());
    assert_eq!(world.bird(), Body::bird());
    let mut expected = vec![Body::bird()];
    wall_setup(&mut expected);
    assert_eq!(world.bodies(), &expected);
}

#[test]
fn one_tick_without_a_flap() {
    let mut world = World::new();
    assert_eq!(world.tick_with(TICK, false, 0), None);
    let bird = world.bird();
    let vy = BIRD_SPEED - 15_412_500;
    assert_eq!(bird.velocity, Some(Velocity(Vec2::new(0, vy))));
    assert_eq!(bird.position, Vec2::new(-100 * UNIT, 6_009_179));
    assert_eq!(world.state(), GameState::Play);
    assert_eq!(world.pipe_tick().elapsed(), TICK);
    assert_eq!(world.scoreboard().score, 0);
    assert_eq!(world.bodies().len(), 5);
}

#[test]
fn one_tick_with_a_flap() {
    let mut world = World::new();
    for _ in 0..20 {
        world.tick_with(TICK, false, 0);
    }
    assert_eq!(world.bird().velocity.unwrap().0.y, BIRD_SPEED - 20 * 15_412_500);
    world.tick_with(TICK, true, 0);
    assert_eq!(world.bird().velocity.unwrap().0.y, BIRD_SPEED - 15_412_500);
    world.tick_with(TICK, true, 0);
    assert_eq!(world.bird().velocity.unwrap().0.y, BIRD_SPEED - 15_412_500);
}

#[test]
fn the_bird_falls_faster_every_tick() {
    let mut world = World::new();
    let mut last = world.bird().velocity.unwrap().0.y;
    for _ in 0..60 {
        assert_eq!(world.tick(TICK, false), None);
        let now = world.bird().velocity.unwrap().0.y;
        assert!(now < last);
        last = now;
    }
}

#[test]
fn falling_to_the_bottom_ends_the_round() {
    let mut world = World::new();
    let mut ticks = 0;
    let hit = loop {
        ticks += 1;
        assert!(ticks < 200);
        if let Some(hit) = world.tick(TICK, false) {
            break hit;
        }
        assert_eq!(world.state(), GameState::Play);
    };
    assert_eq!(hit, CategoryHit::Wall);
    assert_eq!(world.state(), GameState::GameOver);
    assert_eq!(world.scoreboard().score, 0);
    let bird = world.bird();
    assert!(bird.position.y - bird.half_extent.y < BOTTOM_WALL + 5 * UNIT);
    assert!(world.is_valid());
}

#[test]
fn a_round_that_is_over_does_not_change() {
    let mut world = World::new();
    while world.tick(TICK, false).is_none() {}
    assert_eq!(world.state(), GameState::GameOver);
    let over = world.clone();
    for flap in [false, true, true, false] {
        assert_eq!(world.tick(TICK, flap), None);
        assert_eq!(world, over);
        assert_eq!(world.tick_with(3_200_000, flap, 77), None);
        assert_eq!(world, over);
    }
    assert_eq!(world.scoreboard().score, 0);
    assert_eq!(world.state(), GameState::GameOver);
}

#[test]
fn the_tick_of_a_collision_spawns_nothing() {
    let mut bird = Body::bird();
    bird.position = Vec2::new(0, -284 * UNIT);
    bird.velocity = Some(Velocity(Vec2::new(0, -100 * UNIT)));
    let mut bodies = vec![bird];
    wall_setup(&mut bodies);
    let mut world = World::from_parts(bodies, PipeTick::new(10_000).unwrap()).unwrap();
    assert_eq!(world.tick_with(TICK, false, 0), Some(CategoryHit::Wall));
    assert_eq!(world.state(), GameState::GameOver);
    assert_eq!(world.bodies().len(), 5);
    assert_eq!(world.pipe_tick().elapsed(), 0);
    assert_eq!(world.bird().position, Vec2::new(0, -285_803_320));
}

#[test]
fn pipes_are_spawned_on_time_and_scroll() {
    let mut world = World::new();
    for n in 1..=192u32 {
        let bird = world.bird();
        let flap = bird.position.y < 0 && bird.velocity.unwrap().0.y < 0;
        assert_eq!(world.tick_with(TICK, flap, 1 << 31), None);
        assert_eq!(world.bodies().len(), if n < 192 { 5 } else { 7 });
    }
    assert_eq!(world.pipe_tick().elapsed(), 0);
    assert_eq!(
        pipes_of(&world),
        vec![
            Body::pipe(Vec2::new(400 * UNIT, 350 * UNIT)),
            Body::pipe(Vec2::new(400 * UNIT, -250 * UNIT)),
        ]
    );
    let bird = world.bird();
    let flap = bird.position.y < 0 && bird.velocity.unwrap().0.y < 0;
    world.tick_with(TICK, flap, 9);
    assert_eq!(
        pipes_of(&world),
        vec![
            Body::pipe(Vec2::new(399 * UNIT, 350 * UNIT)),
            Body::pipe(Vec2::new(399 * UNIT, -250 * UNIT)),
        ]
    );
    assert!(world.is_valid());
}

#[test]
fn pipes_spawned_at_random_open_by_the_gap() {
    let mut world = World::new();
    for _ in 0..192 {
        let bird = world.bird();
        let flap = bird.position.y < 0 && bird.velocity.unwrap().0.y < 0;
        assert_eq!(world.tick(TICK, flap), None);
    }
    let pipes = pipes_of(&world);
    assert_eq!(pipes.len(), 2);
    let (top, bottom) = (pipes[0], pipes[1]);
    assert_eq!(top.position.x, 400 * UNIT);
    assert_eq!(bottom.position.x, 400 * UNIT);
    assert_eq!(
        (top.position.y - top.half_extent.y) - (bottom.position.y + bottom.half_extent.y),
        PIPE_GAP
    );
}

#[test]
fn pipes_that_left_the_arena_are_removed_in_the_tick() {
    let mut bird = Body::bird();
    bird.velocity = Some(Velocity(Vec2::new(0, 0)));
    bird.position = Vec2::new(0, 0);
    let leaving = Body::pipe(Vec2::new(-400 * UNIT + 500_000, 350 * UNIT));
    let staying = Body::pipe(Vec2::new(-400 * UNIT + 1_000_000, -250 * UNIT));
    let mut world = World::from_parts(vec![leaving, bird, staying], pipe_setup()).unwrap();
    assert_eq!(world.tick_with(TICK, false, 0), None);
    assert_eq!(world.bodies().len(), 2);
    assert_eq!(world.bodies()[0].category, Category::Bird);
    assert_eq!(world.bodies()[1], Body::pipe(Vec2::new(-400 * UNIT, -250 * UNIT)));
    assert_eq!(world.tick_with(TICK, false, 0), None);
    assert_eq!(world.bodies().len(), 1);
    assert_eq!(world.bird(), world.bodies()[0]);
    assert!(world.is_valid());
}

#[test]
fn flying_into_a_pipe_ends_the_round() {
    let mut bird = Body::bird();
    bird.position = Vec2::new(0, 0);
    bird.velocity = Some(Velocity(Vec2::new(0, 0)));
    bird.gravity = false;
    let pipe = Body::pipe(Vec2::new(36 * UNIT, 150 * UNIT));
    let mut world = World::from_parts(vec![bird, pipe], pipe_setup()).unwrap();
    assert_eq!(world.tick_with(TICK, false, 0), None);
    assert_eq!(world.bodies()[1].position.x, 35 * UNIT);
    assert_eq!(world.tick_with(TICK, false, 0), Some(CategoryHit::Pipe));
    assert_eq!(world.state(), GameState::GameOver);
    assert_eq!(world.bodies()[1].position.x, 34 * UNIT);
    assert_eq!(world.pipe_tick().elapsed(), TICK);
}

#[test]
fn a_round_needs_exactly_one_bird_and_sound_bodies() {
    let timer = PipeTick::new(5).unwrap();
    assert!(World::from_parts(vec![], timer).is_none());
    assert!(World::from_parts(vec![Body::pipe(Vec2::new(0, 0))], timer).is_none());
    assert!(World::from_parts(vec![Body::bird(), Body::bird()], timer).is_none());
    let mut bad = Body::pipe(Vec2::new(0, 0));
    bad.half_extent = Vec2::new(1, -1);
    assert!(World::from_parts(vec![Body::bird(), bad], timer).is_none());
    let world = World::from_parts(vec![Body::pipe(Vec2::new(0, 0)), Body::bird()], timer).unwrap();
    assert!(world.is_valid());
    assert_eq!(world.state(), GameState::Play);
    assert_eq!(world.scoreboard().score, 0);
    assert_eq!(world.pipe_tick().period(), 5);
    assert_eq!(world.bird(), Body::bird());
}
