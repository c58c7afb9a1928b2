use rocket_ball::body::Body;
use rocket_ball::config::SimConfig;
use rocket_ball::physics::{resolve_collision, step, step_body};
use rocket_ball::scheduler::TickScheduler;
use rocket_ball::units::{
    DEFAULT_BALL_RADIUS, DEFAULT_GRAVITY, DEFAULT_RESTITUTION, DEFAULT_TICK_NANOS,
    DEFAULT_VIEWPORT_HEIGHT, DEFAULT_VIEWPORT_WIDTH,
};
use rocket_ball::vec3::Vec3;
use rocket_ball::viewport::Viewport;

// All quantities are in subunits: 1000 subunits to one world unit.

#[test]
fn gravity_applies_before_integration() {
    // One tick with gravity 0.2: velocity and position both end at -0.2,
    // because integration uses the velocity gravity just produced.
    let config = SimConfig::default();
    let viewport = Viewport::new_default();
    let mut body = Body::new(Vec3::zero());
    step_body(&mut body, &viewport, &config);
    assert_eq!(body.velocity, Vec3::new(0, -200, 0));
    assert_eq!(body.position, Vec3::new(0, -200, 0));
}

#[test]
fn free_fall_velocity_is_exact_and_descent_monotonic() {
    let config = SimConfig::default();
    let viewport = Viewport::new_default();
    let mut body = Body::new(Vec3::zero());
    let mut previous_y = body.position.y;
    for tick in 1..=3i64 {
        step_body(&mut body, &viewport, &config);
        assert_eq!(body.velocity.y, -200 * tick);
        assert!(body.position.y < previous_y);
        previous_y = body.position.y;
    }
    // After 3 ticks: -(0.2 + 0.4 + 0.6) = -1.2 world units.
    assert_eq!(body.velocity.y, -600);
    assert_eq!(body.position.y, -1200);
}

#[test]
fn boundary_clamp() {
    // Height 600, radius 15: bottom = -285. A body at -290 falling at -5
    // is clamped to -285 with velocity -5 * (1 - 1.90) = 4.5.
    let viewport = Viewport::new(800_000, 600_000);
    let mut body = Body::new(Vec3::new(0, -290_000, 0));
    body.velocity = Vec3::new(0, -5_000, 0);
    resolve_collision(&mut body, &viewport, 15_000, 1_900);
    assert_eq!(body.position.y, -285_000);
    assert_eq!(body.velocity.y, 4_500);
}

#[test]
fn no_op_above_boundary() {
    let viewport = Viewport::new(800_000, 600_000);
    let mut body = Body::new(Vec3::new(0, 0, 0));
    body.velocity = Vec3::new(0, -5_000, 0);
    let before = body;
    resolve_collision(&mut body, &viewport, 15_000, 1_900);
    assert_eq!(body, before);
}

#[test]
fn upward_body_below_boundary_is_left_alone() {
    // Below the boundary but already moving upward: no correction; the
    // collision response only acts on bodies still moving downward.
    let viewport = Viewport::new(800_000, 600_000);
    let mut body = Body::new(Vec3::new(0, -290_000, 0));
    body.velocity = Vec3::new(0, 5_000, 0);
    let before = body;
    resolve_collision(&mut body, &viewport, 15_000, 1_900);
    assert_eq!(body, before);
}

#[test]
fn resize_updates_boundary_without_touching_bodies() {
    let mut viewport = Viewport::new(800_000, 600_000);
    let body = Body::new(Vec3::new(0, -100_000, 0));
    let before = body;
    assert_eq!(viewport.bottom_boundary(15_000), -285_000);
    viewport.resize(800_000, 400_000);
    assert_eq!(viewport.bottom_boundary(15_000), -185_000);
    assert_eq!(viewport.width, 800_000);
    assert_eq!(viewport.height, 400_000);
    assert_eq!(body, before);
}

#[test]
fn rest_on_floor_is_unstable_and_keeps_oscillating() {
    // A body sitting exactly on the boundary with zero velocity: gravity
    // reintroduces downward velocity within the tick, the body penetrates,
    // and the collision response clamps it back with a damped reflection.
    let config = SimConfig::default();
    let viewport = Viewport::new_default();
    let bottom: i64 = viewport.bottom_boundary(config.ball_radius);
    assert_eq!(bottom, -285_000);
    let mut body = Body::new(Vec3::new(0, bottom, 0));

    step_body(&mut body, &viewport, &config);
    // Gravity gave -200; the bounce adds 1900 * 200 / 1000 = 380.
    assert_eq!(body.position.y, bottom);
    assert_eq!(body.velocity.y, 180);

    step_body(&mut body, &viewport, &config);
    // 180 - 200 = -20 penetrates again; bounce adds 1900 * 20 / 1000 = 38.
    assert_eq!(body.position.y, bottom);
    assert_eq!(body.velocity.y, 18);
}

#[test]
fn bounce_division_truncates_toward_zero() {
    // Velocity -0.333: the correction 1900 * 333 / 1000 truncates to 632.
    let viewport = Viewport::new(800_000, 600_000);
    let mut body = Body::new(Vec3::new(0, -290_000, 0));
    body.velocity = Vec3::new(0, -333, 0);
    resolve_collision(&mut body, &viewport, 15_000, 1_900);
    assert_eq!(body.velocity.y, -333 + 632);
    assert_eq!(body.position.y, -285_000);
}

#[test]
fn non_positive_height_skips_collision() {
    let viewport = Viewport::new(800_000, 0);
    let mut body = Body::new(Vec3::new(0, -290_000, 0));
    body.velocity = Vec3::new(0, -5_000, 0);
    let before = body;
    resolve_collision(&mut body, &viewport, 15_000, 1_900);
    assert_eq!(body, before);
}

#[test]
fn gravity_reaches_only_flagged_bodies() {
    let config = SimConfig::default();
    let viewport = Viewport::new_default();
    let mut kinematic = Body::new_kinematic(Vec3::zero());
    kinematic.velocity = Vec3::new(1_000, 2_000, 0);
    step_body(&mut kinematic, &viewport, &config);
    // Integrated but not accelerated.
    assert_eq!(kinematic.velocity, Vec3::new(1_000, 2_000, 0));
    assert_eq!(kinematic.position, Vec3::new(1_000, 2_000, 0));
}

#[test]
fn step_runs_every_body_through_the_tick() {
    let config = SimConfig::default();
    let viewport = Viewport::new_default();
    let mut bodies = vec![Body::new(Vec3::zero()), Body::new_kinematic(Vec3::new(5_000, 0, 0))];
    step(&mut bodies, &viewport, &config);
    assert_eq!(bodies.len(), 2);
    assert_eq!(bodies[0].velocity, Vec3::new(0, -200, 0));
    assert_eq!(bodies[0].position, Vec3::new(0, -200, 0));
    assert_eq!(bodies[1].velocity, Vec3::new(0, 0, 0));
    assert_eq!(bodies[1].position, Vec3::new(5_000, 0, 0));
}

#[test]
fn resize_queue_observes_only_the_last_event() {
    let mut viewport = Viewport::new_default();
    let events: Vec<(i64, i64)> = vec![(640_000, 480_000), (1_024_000, 768_000), (800_000, 400_000)];
    viewport.apply_resize_events(&events);
    assert_eq!(viewport.width, 800_000);
    assert_eq!(viewport.height, 400_000);

    let no_events: Vec<(i64, i64)> = Vec::new();
    viewport.apply_resize_events(&no_events);
    assert_eq!(viewport.width, 800_000);
    assert_eq!(viewport.height, 400_000);
}

#[test]
fn odd_height_halves_toward_zero_in_the_boundary() {
    let viewport = Viewport::new(800, 601);
    // 601 / 2 = 300, so the boundary is -(300 - 15) = -285.
    assert_eq!(viewport.bottom_boundary(15), -285);
}

#[test]
fn scheduler_pays_out_whole_ticks_and_carries_the_rest() {
    let mut scheduler = TickScheduler::new(16_666_667);
    assert_eq!(scheduler.advance(16_666_667), 1);
    assert_eq!(scheduler.accumulated_nanos, 0);
    assert_eq!(scheduler.advance(8_000_000), 0);
    assert_eq!(scheduler.accumulated_nanos, 8_000_000);
    assert_eq!(scheduler.advance(8_666_667), 1);
    assert_eq!(scheduler.accumulated_nanos, 0);
    assert_eq!(scheduler.advance(33_333_334), 2);
    assert_eq!(scheduler.accumulated_nanos, 0);
}

#[test]
fn documented_defaults() {
    let config = SimConfig::default();
    assert_eq!(config.gravity, DEFAULT_GRAVITY);
    assert_eq!(config.ball_radius, DEFAULT_BALL_RADIUS);
    assert_eq!(config.restitution, DEFAULT_RESTITUTION);
    assert_eq!(config.tick_nanos, DEFAULT_TICK_NANOS);
    let viewport = Viewport::new_default();
    assert_eq!(viewport.width, DEFAULT_VIEWPORT_WIDTH);
    assert_eq!(viewport.height, DEFAULT_VIEWPORT_HEIGHT);
    let scheduler = TickScheduler::new_default();
    assert_eq!(scheduler.tick_nanos, DEFAULT_TICK_NANOS);
    assert_eq!(scheduler.accumulated_nanos, 0);
}
