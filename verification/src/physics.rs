//! The fixed-tick pipeline: gravity accumulation, semi-implicit Euler
//! integration and bottom-boundary collision response. Each phase's exact
//! effect is a spec function over the body model, and one tick is their
//! composition in that order.

use vstd::prelude::*;

use crate::body::{Body, BodyModel, body_in_range};
use crate::config::SimConfig;
use crate::units::{COORD_LIMIT, RESTITUTION_LIMIT, UNIT};
use crate::vec3::V3;
use crate::viewport::{Viewport, bottom_spec};

verus! {

/// Effect of the gravity phase: a gravity-enabled body's vertical velocity
/// drops by `gravity`; any other body is untouched.
pub open spec fn gravity_model(b: BodyModel, gravity: int) -> BodyModel {
    if b.gravity_enabled {
        BodyModel {
            position: b.position,
            velocity: V3 { x: b.velocity.x, y: b.velocity.y - gravity, z: b.velocity.z },
            gravity_enabled: b.gravity_enabled,
        }
    } else {
        b
    }
}

/// Effect of the integration phase: the velocity, as already updated by
/// gravity this tick, is added to the position.
pub open spec fn integrate_model(b: BodyModel) -> BodyModel {
    BodyModel {
        position: V3 {
            x: b.position.x + b.velocity.x,
            y: b.position.y + b.velocity.y,
            z: b.position.z + b.velocity.z,
        },
        velocity: b.velocity,
        gravity_enabled: b.gravity_enabled,
    }
}

/// The vertical velocity after the boundary's additive correction of
/// `-(restitution/UNIT) * vy`: for a factor above one the velocity is
/// reversed, for the default 1.90 with nine tenths of its speed.
pub open spec fn bounced_velocity(vy: int, restitution: int) -> int {
    vy + (restitution * -vy) / (UNIT as int)
}

/// Effect of the collision phase. For a positive viewport height, a body
/// below the bottom boundary that is still moving downward has its
/// vertical velocity corrected and its position clamped to the boundary.
/// A body moving upward while below the boundary is left alone, as is
/// everything for a non-positive height, which cannot define a boundary.
pub open spec fn collide_model(b: BodyModel, height: int, radius: int, restitution: int) -> BodyModel {
    if height > 0 && b.position.y < bottom_spec(height, radius) && b.velocity.y < 0 {
        BodyModel {
            position: V3 { x: b.position.x, y: bottom_spec(height, radius), z: b.position.z },
            velocity: V3 {
                x: b.velocity.x,
                y: bounced_velocity(b.velocity.y, restitution),
                z: b.velocity.z,
            },
            gravity_enabled: b.gravity_enabled,
        }
    } else {
        b
    }
}

/// One whole tick: gravity, then integration, then collision response.
pub open spec fn tick_model(
    b: BodyModel,
    gravity: int,
    height: int,
    radius: int,
    restitution: int,
) -> BodyModel {
    collide_model(integrate_model(gravity_model(b, gravity)), height, radius, restitution)
}

/// Gravity phase for one body: adds the constant downward vector to the
/// velocity of a gravity-enabled body.
pub fn apply_gravity(body: &mut Body, gravity: i64)
    requires
        0 <= gravity <= COORD_LIMIT,
        old(body).in_range(),
    ensures
        final(body)@ == gravity_model(old(body)@, gravity as int),
{
    if body.gravity_enabled {
        body.velocity.y = body.velocity.y - gravity;
    }
}

/// Integration phase for one body: advances the position by the velocity.
pub fn integrate(body: &mut Body)
    requires
        i64::MIN <= old(body)@.position.x + old(body)@.velocity.x <= i64::MAX,
        i64::MIN <= old(body)@.position.y + old(body)@.velocity.y <= i64::MAX,
        i64::MIN <= old(body)@.position.z + old(body)@.velocity.z <= i64::MAX,
    ensures
        final(body)@ == integrate_model(old(body)@),
{
    body.position.x = body.position.x + body.velocity.x;
    body.position.y = body.position.y + body.velocity.y;
    body.position.z = body.position.z + body.velocity.z;
}

/// Collision phase for one body: reads the viewport as of tick start,
/// detects penetration of the bottom boundary while moving downward, and
/// applies the velocity correction and the position clamp.
pub fn resolve_collision(body: &mut Body, viewport: &Viewport, ball_radius: i64, restitution: i64)
    requires
        viewport.wf(),
        0 <= ball_radius <= COORD_LIMIT,
        0 <= restitution <= RESTITUTION_LIMIT,
        -4 * COORD_LIMIT <= old(body)@.velocity.y <= 4 * COORD_LIMIT,
    ensures
        final(body)@ == collide_model(
            old(body)@,
            viewport.height as int,
            ball_radius as int,
            restitution as int,
        ),
{
    if viewport.height >= 1 {
        let bottom: i64 = viewport.bottom_boundary(ball_radius);
        if body.position.y < bottom && body.velocity.y < 0 {
            let neg_vy: i64 = -body.velocity.y;
            proof {
                assert((restitution as int) * (neg_vy as int) <= RESTITUTION_LIMIT * 4
                    * COORD_LIMIT) by (nonlinear_arith)
                    requires
                        0 <= restitution as int <= RESTITUTION_LIMIT,
                        0 <= neg_vy as int <= 4 * COORD_LIMIT,
                ;
            }
            let product: u64 = (restitution as u64) * (neg_vy as u64);
            let delta: i64 = (product / (UNIT as u64)) as i64;
            body.velocity.y = body.velocity.y + delta;
            body.position.y = bottom;
        }
    }
}

/// One whole tick for one body, against the viewport as of tick start.
pub fn step_body(body: &mut Body, viewport: &Viewport, config: &SimConfig)
    requires
        config.wf(),
        viewport.wf(),
        old(body).in_range(),
    ensures
        final(body)@ == tick_model(
            old(body)@,
            config.gravity as int,
            viewport.height as int,
            config.ball_radius as int,
            config.restitution as int,
        ),
{
    apply_gravity(body, config.gravity);
    integrate(body);
    resolve_collision(body, viewport, config.ball_radius, config.restitution);
}

/// Whether every body of a set is within coordinate range.
pub open spec fn bodies_in_range(bodies: Seq<Body>) -> bool {
    forall|i: int| 0 <= i < bodies.len() ==> body_in_range(#[trigger] bodies[i]@)
}

/// Gravity phase over the whole body set.
pub fn gravity_pass(bodies: &mut Vec<Body>, gravity: i64)
    requires
        0 <= gravity <= COORD_LIMIT,
        bodies_in_range(old(bodies)@),
    ensures
        final(bodies)@.len() == old(bodies)@.len(),
        forall|i: int|
            0 <= i < old(bodies)@.len() ==> (#[trigger] final(bodies)@[i])@ == gravity_model(
                old(bodies)@[i]@,
                gravity as int,
            ),
{
    let n: usize = bodies.len();
    let mut i: usize = 0;
    while i < n
        invariant
            n == bodies@.len(),
            bodies@.len() == old(bodies)@.len(),
            0 <= i <= n,
            0 <= gravity <= COORD_LIMIT,
            bodies_in_range(old(bodies)@),
            forall|j: int| i <= j < n ==> bodies@[j] == old(bodies)@[j],
            forall|j: int|
                0 <= j < i ==> (#[trigger] bodies@[j])@ == gravity_model(
                    old(bodies)@[j]@,
                    gravity as int,
                ),
        decreases n - i,
    {
        apply_gravity(&mut bodies[i], gravity);
        i = i + 1;
    }
}

/// Integration phase over the whole body set.
pub fn integrate_pass(bodies: &mut Vec<Body>)
    requires
        forall|i: int|
            0 <= i < old(bodies)@.len() ==> {
                let b = (#[trigger] old(bodies)@[i])@;
                &&& i64::MIN <= b.position.x + b.velocity.x <= i64::MAX
                &&& i64::MIN <= b.position.y + b.velocity.y <= i64::MAX
                &&& i64::MIN <= b.position.z + b.velocity.z <= i64::MAX
            },
    ensures
        final(bodies)@.len() == old(bodies)@.len(),
        forall|i: int|
            0 <= i < old(bodies)@.len() ==> (#[trigger] final(bodies)@[i])@ == integrate_model(
                old(bodies)@[i]@,
            ),
{
    let n: usize = bodies.len();
    let mut i: usize = 0;
    while i < n
        invariant
            n == bodies@.len(),
            bodies@.len() == old(bodies)@.len(),
            0 <= i <= n,
            forall|j: int|
                0 <= j < n ==> {
                    let b = (#[trigger] old(bodies)@[j])@;
                    &&& i64::MIN <= b.position.x + b.velocity.x <= i64::MAX
                    &&& i64::MIN <= b.position.y + b.velocity.y <= i64::MAX
                    &&& i64::MIN <= b.position.z + b.velocity.z <= i64::MAX
                },
            forall|j: int| i <= j < n ==> bodies@[j] == old(bodies)@[j],
            forall|j: int|
                0 <= j < i ==> (#[trigger] bodies@[j])@ == integrate_model(old(bodies)@[j]@),
        decreases n - i,
    {
        integrate(&mut bodies[i]);
        i = i + 1;
    }
}

/// Collision phase over the whole body set, against one consistent
/// viewport snapshot.
pub fn collision_pass(bodies: &mut Vec<Body>, viewport: &Viewport, ball_radius: i64, restitution: i64)
    requires
        viewport.wf(),
        0 <= ball_radius <= COORD_LIMIT,
        0 <= restitution <= RESTITUTION_LIMIT,
        forall|i: int|
            0 <= i < old(bodies)@.len() ==> -4 * COORD_LIMIT
                <= (#[trigger] old(bodies)@[i])@.velocity.y <= 4 * COORD_LIMIT,
    ensures
        final(bodies)@.len() == old(bodies)@.len(),
        forall|i: int|
            0 <= i < old(bodies)@.len() ==> (#[trigger] final(bodies)@[i])@ == collide_model(
                old(bodies)@[i]@,
                viewport.height as int,
                ball_radius as int,
                restitution as int,
            ),
{
    let n: usize = bodies.len();
    let mut i: usize = 0;
    while i < n
        invariant
            n == bodies@.len(),
            bodies@.len() == old(bodies)@.len(),
            0 <= i <= n,
            viewport.wf(),
            0 <= ball_radius <= COORD_LIMIT,
            0 <= restitution <= RESTITUTION_LIMIT,
            forall|j: int|
                0 <= j < n ==> -4 * COORD_LIMIT <= (#[trigger] old(bodies)@[j])@.velocity.y <= 4
                    * COORD_LIMIT,
            forall|j: int| i <= j < n ==> bodies@[j] == old(bodies)@[j],
            forall|j: int|
                0 <= j < i ==> (#[trigger] bodies@[j])@ == collide_model(
                    old(bodies)@[j]@,
                    viewport.height as int,
                    ball_radius as int,
                    restitution as int,
                ),
        decreases n - i,
    {
        resolve_collision(&mut bodies[i], viewport, ball_radius, restitution);
        i = i + 1;
    }
}

/// One whole tick for every body: the gravity phase runs over the full
/// set, then integration, then collision response, so the three phases
/// are strictly ordered while each is independent across bodies. The
/// viewport is read only.
pub fn step(bodies: &mut Vec<Body>, viewport: &Viewport, config: &SimConfig)
    requires
        config.wf(),
        viewport.wf(),
        bodies_in_range(old(bodies)@),
    ensures
        final(bodies)@.len() == old(bodies)@.len(),
        forall|i: int|
            0 <= i < old(bodies)@.len() ==> (#[trigger] final(bodies)@[i])@ == tick_model(
                old(bodies)@[i]@,
                config.gravity as int,
                viewport.height as int,
                config.ball_radius as int,
                config.restitution as int,
            ),
{
    let ghost b0 = bodies@;
    gravity_pass(bodies, config.gravity);
    let ghost b1 = bodies@;
    proof {
        assert forall|i: int|
            0 <= i < b1.len() implies {
                let b = (#[trigger] b1[i])@;
                &&& i64::MIN <= b.position.x + b.velocity.x <= i64::MAX
                &&& i64::MIN <= b.position.y + b.velocity.y <= i64::MAX
                &&& i64::MIN <= b.position.z + b.velocity.z <= i64::MAX
            } by {
            assert(b1[i]@ == gravity_model(b0[i]@, config.gravity as int));
            assert(body_in_range(b0[i]@));
        }
    }
    integrate_pass(bodies);
    let ghost b2 = bodies@;
    proof {
        assert forall|i: int|
            0 <= i < b2.len() implies -4 * COORD_LIMIT <= (#[trigger] b2[i])@.velocity.y <= 4
                * COORD_LIMIT by {
            assert(b2[i]@ == integrate_model(b1[i]@));
            assert(b1[i]@ == gravity_model(b0[i]@, config.gravity as int));
            assert(body_in_range(b0[i]@));
        }
    }
    collision_pass(bodies, viewport, config.ball_radius, config.restitution);
    proof {
        assert forall|i: int|
            0 <= i < b0.len() implies (#[trigger] bodies@[i])@ == tick_model(
                b0[i]@,
                config.gravity as int,
                viewport.height as int,
                config.ball_radius as int,
                config.restitution as int,
            ) by {
            assert(bodies@[i]@ == collide_model(
                b2[i]@,
                viewport.height as int,
                config.ball_radius as int,
                config.restitution as int,
            ));
            assert(b2[i]@ == integrate_model(b1[i]@));
            assert(b1[i]@ == gravity_model(b0[i]@, config.gravity as int));
        }
    }
}

} // verus!
