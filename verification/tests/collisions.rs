use rusty_bird::base::{check_for_collisions, find_bird, CategoryHit, GameState};
use rusty_bird::body::{collide, Body, Category, Vec2, Velocity};
use rusty_bird::fixed::UNIT;

fn boxed(category: Category, x: i64, y: i64, hx: i64, hy: i64) -> Body {
    Body {
        category,
        position: Vec2::new(x, y),
        velocity: None,
        half_extent: Vec2::new(hx, hy),
        collider: true,
        gravity: false,
    }
}

fn bird_at(x: i64, y: i64) -> Body {
    Body {
        category: Category::Bird,
        position: Vec2::new(x, y),
        velocity: Some(Velocity(Vec2::new(0, 0))),
        half_extent: Vec2::new(10 * UNIT, 10 * UNIT),
        collider: true,
        gravity: true,
    }
}

#[test]
fn overlapping_boxes_collide() {
    let a = boxed(Category::Bird, 0, 0, 10, 10);
    let b = boxed(Category::Pipe, 15, 15, 10, 10);
    assert!(collide(&a, &b));
    assert!(collide(&b, &a));
}

#[test]
fn a_box_inside_another_collides() {
    let a = boxed(Category::Bird, 0, 0, 1, 1);
    let b = boxed(Category::Wall, 0, 0, 100, 100);
    assert!(collide(&a, &b));
    assert!(collide(&b, &a));
    assert!(collide(&a, &a));
}

#[test]
fn boxes_that_touch_along_an_edge_do_not_collide() {
    let a = boxed(Category::Bird, 0, 0, 10, 10);
    let right = boxed(Category::Pipe, 20, 0, 10, 10);
    let above = boxed(Category::Pipe, 0, 20, 10, 10);
    let corner = boxed(Category::Pipe, 20, 20, 10, 10);
    for other in [right, above, corner] {
        assert!(!collide(&a, &other));
        assert!(!collide(&other, &a));
    }
    let nearer = boxed(Category::Pipe, 19, 0, 10, 10);
    assert!(collide(&a, &nearer));
    assert!(collide(&nearer, &a));
}

#[test]
fn boxes_apart_do_not_collide() {
    let a = boxed(Category::Bird, 0, 0, 10, 10);
    let far_right = boxed(Category::Pipe, 100, 0, 10, 10);
    let far_up = boxed(Category::Pipe, 0, -100, 10, 10);
    let only_x = boxed(Category::Pipe, 5, 50, 10, 10);
    for other in [far_right, far_up, only_x] {
        assert!(!collide(&a, &other));
        assert!(!collide(&other, &a));
    }
}

#[test]
fn collide_does_not_overflow_at_the_limits() {
    let a = boxed(Category::Bird, i64::MAX, i64::MAX, i64::MAX, i64::MAX);
    let b = boxed(Category::Pipe, i64::MIN, i64::MIN, i64::MAX, i64::MAX);
    assert!(!collide(&a, &b));
    let c = boxed(Category::Pipe, 0, 0, i64::MAX, i64::MAX);
    assert!(collide(&a, &c));
    assert!(collide(&c, &b));
}

#[test]
fn find_bird_wants_exactly_one() {
    let wall = boxed(Category::Wall, 0, 0, 1, 1);
    assert_eq!(find_bird(&vec![]), None);
    assert_eq!(find_bird(&vec![wall, wall]), None);
    assert_eq!(find_bird(&vec![wall, bird_at(0, 0), wall]), Some(1));
    assert_eq!(find_bird(&vec![bird_at(0, 0)]), Some(0));
    assert_eq!(find_bird(&vec![bird_at(0, 0), wall, bird_at(1, 1)]), None);
    assert_eq!(find_bird(&vec![bird_at(0, 0), bird_at(0, 0), bird_at(1, 1)]), None);
}

#[test]
fn hitting_a_pipe_ends_the_round() {
    let bodies = vec![
        bird_at(0, 0),
        boxed(Category::Pipe, 30 * UNIT, 0, 25 * UNIT, 200 * UNIT),
    ];
    let mut state = GameState::Play;
    let hit = check_for_collisions(&bodies, &mut state);
    assert_eq!(hit, Some(CategoryHit::Pipe));
    assert_eq!(state, GameState::GameOver);
}

#[test]
fn hitting_a_wall_ends_the_round() {
    let bodies = vec![
        boxed(Category::Wall, 0, -300 * UNIT, 355 * UNIT, 5 * UNIT),
        bird_at(0, -290 * UNIT),
    ];
    let mut state = GameState::Play;
    let hit = check_for_collisions(&bodies, &mut state);
    assert_eq!(hit, Some(CategoryHit::Wall));
    assert_eq!(state, GameState::GameOver);
}

#[test]
fn touching_a_wall_does_not_end_the_round() {
    let bodies = vec![
        boxed(Category::Wall, 0, -300 * UNIT, 355 * UNIT, 5 * UNIT),
        bird_at(0, -285 * UNIT),
    ];
    let mut state = GameState::Play;
    assert_eq!(check_for_collisions(&bodies, &mut state), None);
    assert_eq!(state, GameState::Play);
}

#[test]
fn no_overlap_keeps_the_round_in_play() {
    let bodies = vec![
        bird_at(0, 0),
        boxed(Category::Pipe, 100 * UNIT, 0, 25 * UNIT, 200 * UNIT),
        boxed(Category::Wall, 0, 300 * UNIT, 355 * UNIT, 5 * UNIT),
    ];
    let mut state = GameState::Play;
    assert_eq!(check_for_collisions(&bodies, &mut state), None);
    assert_eq!(state, GameState::Play);
}

#[test]
fn the_bird_alone_hits_nothing() {
    let bodies = vec![bird_at(0, 0)];
    let mut state = GameState::Play;
    assert_eq!(check_for_collisions(&bodies, &mut state), None);
    assert_eq!(state, GameState::Play);
}

#[test]
fn a_body_that_is_no_collider_is_not_seen() {
    let mut ghost = boxed(Category::Pipe, 0, 0, 25 * UNIT, 200 * UNIT);
    ghost.collider = false;
    let bodies = vec![ghost, bird_at(0, 0)];
    let mut state = GameState::Play;
    assert_eq!(check_for_collisions(&bodies, &mut state), None);
    assert_eq!(state, GameState::Play);
}

#[test]
fn the_first_body_hit_gives_the_tag() {
    let pipe = boxed(Category::Pipe, 0, 0, 25 * UNIT, 200 * UNIT);
    let wall = boxed(Category::Wall, 0, 0, 355 * UNIT, 5 * UNIT);
    let far = boxed(Category::Pipe, 900 * UNIT, 0, 25 * UNIT, 200 * UNIT);

    let mut state = GameState::Play;
    let hit = check_for_collisions(&vec![far, wall, bird_at(0, 0), pipe], &mut state);
    assert_eq!(hit, Some(CategoryHit::Wall));
    assert_eq!(state, GameState::GameOver);

    let mut state = GameState::Play;
    let hit = check_for_collisions(&vec![pipe, far, bird_at(0, 0), wall], &mut state);
    assert_eq!(hit, Some(CategoryHit::Pipe));
    assert_eq!(state, GameState::GameOver);
}

#[test]
fn a_round_that_is_over_reports_nothing_more() {
    let bodies = vec![
        bird_at(0, 0),
        boxed(Category::Pipe, 0, 0, 25 * UNIT, 200 * UNIT),
        boxed(Category::Wall, 0, 0, 355 * UNIT, 5 * UNIT),
    ];
    let mut state = GameState::Play;
    assert_eq!(check_for_collisions(&bodies, &mut state), Some(CategoryHit::Pipe));
    assert_eq!(state, GameState::GameOver);
    for _ in 0..3 {
        assert_eq!(check_for_collisions(&bodies, &mut state), None);
        assert_eq!(state, GameState::GameOver);
    }
}

#[test]
fn the_round_starts_in_play() {
    assert_eq!(GameState::default(), GameState::Play);
}
