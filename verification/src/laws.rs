//! Proved laws of the tick pipeline: exact free-fall velocity and strict
//! descent while no boundary is touched, and the one-tick behaviour of a
//! body resting on the floor.

use vstd::prelude::*;

use crate::body::BodyModel;
use crate::physics::{gravity_model, integrate_model, tick_model};
use crate::units::UNIT;
use crate::viewport::bottom_spec;

verus! {

/// The body model after `n` whole ticks.
pub open spec fn ticks_model(
    b: BodyModel,
    gravity: int,
    height: int,
    radius: int,
    restitution: int,
    n: nat,
) -> BodyModel
    decreases n,
{
    if n == 0 {
        b
    } else {
        tick_model(
            ticks_model(b, gravity, height, radius, restitution, (n - 1) as nat),
            gravity,
            height,
            radius,
            restitution,
        )
    }
}

/// Height of a body falling from rest at `p0` after `i` ticks: each tick
/// lowers it by one more gravity increment than the tick before.
pub open spec fn free_fall_pos(p0: int, gravity: int, i: nat) -> int
    decreases i,
{
    if i == 0 {
        p0
    } else {
        free_fall_pos(p0, gravity, (i - 1) as nat) - gravity * i
    }
}

/// Each further tick of free fall strictly lowers the body.
proof fn lemma_free_fall_decreases(p0: int, gravity: int, i: nat)
    requires
        gravity > 0,
        i >= 1,
    ensures
        free_fall_pos(p0, gravity, i) < free_fall_pos(p0, gravity, (i - 1) as nat),
{
    assert(gravity * i > 0) by (nonlinear_arith)
        requires
            gravity > 0,
            i >= 1,
    ;
}

/// Free-fall height is non-increasing in the tick count.
proof fn lemma_free_fall_le(p0: int, gravity: int, i: nat, j: nat)
    requires
        gravity > 0,
        i <= j,
    ensures
        free_fall_pos(p0, gravity, j) <= free_fall_pos(p0, gravity, i),
    decreases j,
{
    if i < j {
        lemma_free_fall_le(p0, gravity, i, (j - 1) as nat);
        lemma_free_fall_decreases(p0, gravity, j);
    }
}

/// Gravity monotonicity: a gravity-enabled body starting at rest, over any
/// number of ticks during which it never reaches the bottom boundary, has
/// vertical velocity exactly `-i * gravity` after `i` ticks, its height
/// follows the free-fall positions exactly, and from the first tick on it
/// strictly descends tick over tick.
pub proof fn lemma_gravity_monotonic(
    b: BodyModel,
    gravity: int,
    height: int,
    radius: int,
    restitution: int,
    n: nat,
)
    requires
        b.gravity_enabled,
        b.velocity.y == 0,
        gravity > 0,
        height > 0 ==> free_fall_pos(b.position.y, gravity, n) >= bottom_spec(height, radius),
    ensures
        forall|i: nat|
            i <= n ==> #[trigger] ticks_model(b, gravity, height, radius, restitution, i).velocity.y
                == -(i as int) * gravity,
        forall|i: nat|
            i <= n ==> #[trigger] ticks_model(b, gravity, height, radius, restitution, i).position.y
                == free_fall_pos(b.position.y, gravity, i),
        forall|i: nat|
            1 <= i <= n ==> #[trigger] ticks_model(
                b,
                gravity,
                height,
                radius,
                restitution,
                i,
            ).position.y < ticks_model(
                b,
                gravity,
                height,
                radius,
                restitution,
                (i - 1) as nat,
            ).position.y,
    decreases n,
{
    let p0: int = b.position.y;
    if n == 0 {
        assert(ticks_model(b, gravity, height, radius, restitution, 0) == b);
    } else {
        let m = (n - 1) as nat;
        if height > 0 {
            lemma_free_fall_le(p0, gravity, m, n);
        }
        lemma_gravity_monotonic(b, gravity, height, radius, restitution, m);
        let bm = ticks_model(b, gravity, height, radius, restitution, m);
        assert(bm.velocity.y == -(m as int) * gravity);
        assert(bm.position.y == free_fall_pos(p0, gravity, m));
        assert(bm.gravity_enabled == b.gravity_enabled) by {
            lemma_ticks_keep_flag(b, gravity, height, radius, restitution, m);
        }
        let g1 = gravity_model(bm, gravity);
        assert(g1.velocity.y == -(n as int) * gravity) by (nonlinear_arith)
            requires
                g1.velocity.y == -(m as int) * gravity - gravity,
                n == m + 1,
        ;
        let i1 = integrate_model(g1);
        assert(i1.position.y == free_fall_pos(p0, gravity, n)) by {
            assert(free_fall_pos(p0, gravity, n) == free_fall_pos(p0, gravity, m) - gravity * n);
            assert(i1.position.y == bm.position.y + g1.velocity.y);
            assert(-(n as int) * gravity == -(gravity * n)) by (nonlinear_arith);
        }
        assert(i1.velocity.y < 0) by {
            assert(-(n as int) * gravity < 0) by (nonlinear_arith)
                requires
                    gravity > 0,
                    n >= 1,
            ;
        }
        let bn = ticks_model(b, gravity, height, radius, restitution, n);
        assert(bn == tick_model(bm, gravity, height, radius, restitution));
        assert(bn == i1);
        assert forall|i: nat|
            i <= n implies #[trigger] ticks_model(
            b,
            gravity,
            height,
            radius,
            restitution,
            i,
        ).velocity.y == -(i as int) * gravity by {
            if i < n {
                assert(ticks_model(b, gravity, height, radius, restitution, i).velocity.y == -(
                i as int) * gravity);
            }
        }
        assert forall|i: nat|
            i <= n implies #[trigger] ticks_model(
            b,
            gravity,
            height,
            radius,
            restitution,
            i,
        ).position.y == free_fall_pos(p0, gravity, i) by {
            if i < n {
                assert(ticks_model(b, gravity, height, radius, restitution, i).position.y
                    == free_fall_pos(p0, gravity, i));
            }
        }
        assert forall|i: nat|
            1 <= i <= n implies #[trigger] ticks_model(
            b,
            gravity,
            height,
            radius,
            restitution,
            i,
        ).position.y < ticks_model(
            b,
            gravity,
            height,
            radius,
            restitution,
            (i - 1) as nat,
        ).position.y by {
            lemma_free_fall_decreases(p0, gravity, i);
        }
    }
}

/// Ticks never change which bodies take gravity.
pub proof fn lemma_ticks_keep_flag(
    b: BodyModel,
    gravity: int,
    height: int,
    radius: int,
    restitution: int,
    n: nat,
)
    ensures
        ticks_model(b, gravity, height, radius, restitution, n).gravity_enabled
            == b.gravity_enabled,
    decreases n,
{
    if n > 0 {
        lemma_ticks_keep_flag(b, gravity, height, radius, restitution, (n - 1) as nat);
    }
}

/// A body resting exactly on the bottom boundary is not in equilibrium:
/// within the same tick gravity makes it penetrate the boundary, the
/// collision response fires, and the tick ends with the body clamped back
/// to the boundary carrying the corrected vertical velocity.
pub proof fn lemma_rest_on_floor_bounces(
    b: BodyModel,
    gravity: int,
    height: int,
    radius: int,
    restitution: int,
)
    requires
        b.gravity_enabled,
        gravity > 0,
        height > 0,
        b.position.y == bottom_spec(height, radius),
        b.velocity.y == 0,
    ensures
        integrate_model(gravity_model(b, gravity)).position.y < bottom_spec(height, radius),
        tick_model(b, gravity, height, radius, restitution).position.y == bottom_spec(
            height,
            radius,
        ),
        tick_model(b, gravity, height, radius, restitution).velocity.y == -gravity + (restitution
            * gravity) / (UNIT as int),
{
    let g1 = gravity_model(b, gravity);
    assert(g1.velocity.y == -gravity);
    let i1 = integrate_model(g1);
    assert(i1.position.y == bottom_spec(height, radius) - gravity);
    assert(-(-gravity) == gravity);
}

} // verus!
