//! The ballistic engine: semi-implicit Euler integration of every bullet
//! under constant gravity, clamped to the ground plane.
//!
//! A step first accelerates the bullet, then moves it with the new velocity.
//! A bullet whose new y-position would reach the ground plane is set on it,
//! its velocity is fixed at (0, 0), and it becomes Grounded — terminal for
//! that bullet. No horizontal bound is enforced: a bullet may travel past
//! either edge of the play space.
use vstd::prelude::*;

use crate::entities::BulletState;
use crate::entities::Registry;
use crate::entities::TankBullet;
use crate::math::sat_add;
use crate::math::sat_i64;
use crate::math::scale_milli;
use crate::math::scale_milli_spec;
use crate::GRAVITY;
use crate::GROUND_HEIGHT;

verus! {

/// One integration step of a single bullet over `dt_ms` milliseconds.
/// A grounded bullet is never mutated again.
pub open spec fn spec_step_bullet(b: TankBullet, dt_ms: int) -> TankBullet {
    if b.state is Grounded {
        b
    } else {
        let vy1 = sat_i64(b.vy + scale_milli_spec(GRAVITY as int, dt_ms));
        let x1 = sat_i64(b.x + scale_milli_spec(b.vx as int, dt_ms));
        let y1 = sat_i64(b.y + scale_milli_spec(vy1, dt_ms));
        if y1 <= GROUND_HEIGHT as int {
            TankBullet {
                x: x1 as i64,
                y: GROUND_HEIGHT,
                vx: 0,
                vy: 0,
                state: BulletState::Grounded,
            }
        } else {
            TankBullet { x: x1 as i64, y: y1 as i64, vx: b.vx, vy: vy1 as i64, state: BulletState::Flying }
        }
    }
}

/// Integrates one bullet over `dt_ms` milliseconds.
pub fn step_bullet(b: &mut TankBullet, dt_ms: i64)
    ensures
        *final(b) == spec_step_bullet(*old(b), dt_ms as int),
        old(b).wf() ==> final(b).wf(),
{
    match b.state {
        BulletState::Grounded => {},
        BulletState::Flying => {
            b.vy = sat_add(b.vy, scale_milli(GRAVITY, dt_ms));
            b.x = sat_add(b.x, scale_milli(b.vx, dt_ms));
            let y1 = sat_add(b.y, scale_milli(b.vy, dt_ms));
            if y1 <= GROUND_HEIGHT {
                b.y = GROUND_HEIGHT;
                b.vx = 0;
                b.vy = 0;
                b.state = BulletState::Grounded;
            } else {
                b.y = y1;
            }
        },
    }
}

/// A step never leaves a bullet below the ground plane, whatever its state
/// and velocity: for all ticks, a bullet's y-position stays at or above
/// `GROUND_HEIGHT`.
pub proof fn lemma_step_bullet_wf(b: TankBullet, dt_ms: int)
    requires
        b.wf(),
    ensures
        spec_step_bullet(b, dt_ms).wf(),
        spec_step_bullet(b, dt_ms).y >= GROUND_HEIGHT,
{
}

/// The bullet left by a whole sequence of ticks, each `dts[i]` the elapsed
/// milliseconds of one tick.
pub open spec fn run_bullet(b: TankBullet, dts: Seq<int>) -> TankBullet
    decreases dts.len(),
{
    if dts.len() == 0 {
        b
    } else {
        run_bullet(spec_step_bullet(b, dts[0]), dts.subrange(1, dts.len() as int))
    }
}

/// Over any sequence of ticks, a bullet's y-position never falls below
/// `GROUND_HEIGHT`.
pub proof fn lemma_bullet_never_below_ground(b: TankBullet, dts: Seq<int>)
    requires
        b.wf(),
    ensures
        run_bullet(b, dts).wf(),
        run_bullet(b, dts).y >= GROUND_HEIGHT,
    decreases dts.len(),
{
    if dts.len() > 0 {
        lemma_step_bullet_wf(b, dts[0]);
        lemma_bullet_never_below_ground(
            spec_step_bullet(b, dts[0]),
            dts.subrange(1, dts.len() as int),
        );
    }
}

/// The step on which a flying bullet reaches the ground plane pins it there
/// and fixes its velocity at exactly (0, 0).
pub proof fn lemma_grounding_zeroes_velocity(b: TankBullet, dt_ms: int)
    requires
        b.state is Flying,
        spec_step_bullet(b, dt_ms).state is Grounded,
    ensures
        spec_step_bullet(b, dt_ms).y == GROUND_HEIGHT,
        spec_step_bullet(b, dt_ms).vx == 0,
        spec_step_bullet(b, dt_ms).vy == 0,
{
}

/// Grounded is terminal: over any further sequence of ticks, a grounded
/// bullet is never mutated again, so its velocity remains (0, 0).
pub proof fn lemma_grounded_is_terminal(b: TankBullet, dts: Seq<int>)
    requires
        b.state is Grounded,
    ensures
        run_bullet(b, dts) == b,
    decreases dts.len(),
{
    if dts.len() > 0 {
        lemma_grounded_is_terminal(b, dts.subrange(1, dts.len() as int));
    }
}

/// The ballistic engine as a per-tick system: integrates every bullet in the
/// registry, and nothing else.
pub struct BulletSystem;

impl BulletSystem {
    /// Integrates every bullet over this tick's `dt_ms` milliseconds.
    #[verifier::loop_isolation(false)]
    pub fn run(&mut self, registry: &mut Registry, dt_ms: i64)
        ensures
            final(registry).bullets@.len() == old(registry).bullets@.len(),
            forall|k: int|
                0 <= k < old(registry).bullets@.len() ==> final(registry).bullets@[k]
                    == spec_step_bullet(#[trigger] old(registry).bullets@[k], dt_ms as int),
            final(registry).tanks@ == old(registry).tanks@,
            final(registry).guns@ == old(registry).guns@,
            old(registry).wf() ==> final(registry).wf(),
    {
        let n = registry.bullets.len();
        let mut k: usize = 0;
        while k < n
            invariant
                0 <= k <= n,
                registry.bullets@.len() == n,
                forall|j: int|
                    0 <= j < k ==> registry.bullets@[j] == spec_step_bullet(
                        #[trigger] old(registry).bullets@[j],
                        dt_ms as int,
                    ),
                forall|j: int|
                    k <= j < n ==> registry.bullets@[j] == #[trigger] old(registry).bullets@[j],
                registry.tanks@ == old(registry).tanks@,
                registry.guns@ == old(registry).guns@,
            decreases n - k,
        {
            let mut b = registry.bullets[k];
            step_bullet(&mut b, dt_ms);
            registry.bullets.set(k, b);
            k = k + 1;
        }
        proof {
            if old(registry).wf() {
                assert forall|i: int| 0 <= i < registry.tanks@.len() implies #[trigger] registry
                    .tank_ok(i) by {
                    assert(old(registry).tank_ok(i));
                }
                assert forall|j: int| 0 <= j < registry.guns@.len() implies #[trigger] registry
                    .gun_ok(j) by {
                    assert(old(registry).gun_ok(j));
                }
                assert forall|k2: int|
                    0 <= k2 < registry.bullets@.len() implies (#[trigger] registry.bullets@[k2]).wf() by {
                    lemma_step_bullet_wf(old(registry).bullets@[k2], dt_ms as int);
                }
            }
        }
    }
}

} // verus!
