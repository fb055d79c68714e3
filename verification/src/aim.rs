//! The aim controller: while it is the player's turn, each tick's sample of
//! the continuous aim axis is scaled by a fixed sensitivity, added to the
//! player tank's gun angle, and clamped; the result is written both to the
//! tank record and to its gun's derived rotation. The AI side's angle is
//! never mutated here.
//!
//! The discrete fire control is edge-triggered: `FireTrigger` turns the
//! control's held state into a fire action on the tick it is first pressed.
use vstd::prelude::*;

use crate::angle::clamp_angle;
use crate::angle::spec_clamp_angle;
use crate::entities::Registry;
use crate::entities::Tank;
use crate::entities::TankGun;
use crate::math::scale_milli;
use crate::math::scale_milli_spec;
use crate::turn::CurrentState;

verus! {

/// Sensitivity of the aim axis: milliradians of elevation per full axis
/// deflection per tick (0.02 radians).
pub const AIM_SCALER: i64 = 20;

/// The elevation delta of one tick: the axis sample, in thousandths of full
/// deflection, scaled by the sensitivity.
pub open spec fn spec_aim_delta(axis: int) -> int {
    scale_milli_spec(axis, AIM_SCALER as int)
}

/// The gun angle after one tick of aiming: the delta added, then clamped.
pub open spec fn spec_aimed_angle(angle: int, axis: int) -> int {
    spec_clamp_angle(angle + spec_aim_delta(axis))
}

/// Edge detection for the discrete fire control: holding the control down
/// fires only once per activation.
pub struct FireTrigger {
    pub held: bool,
}

impl FireTrigger {
    /// A trigger whose control starts released.
    pub fn new() -> (r: FireTrigger)
        ensures
            !r.held,
    {
        FireTrigger { held: false }
    }

    /// Samples the control's held state; returns true exactly on a tick where
    /// the control goes from released to pressed.
    pub fn sample(&mut self, pressed: bool) -> (fired: bool)
        ensures
            fired == (pressed && !old(self).held),
            final(self).held == pressed,
    {
        let fired = pressed && !self.held;
        self.held = pressed;
        fired
    }
}

/// The aim controller as a per-tick system.
pub struct AimSystem;

impl AimSystem {
    /// One tick of continuous aiming. Outside `PlayerTurn`, and on an axis
    /// sample of zero, the registry — gun angle and derived rotation
    /// included — is left exactly as it was.
    pub fn run(&mut self, registry: &mut Registry, state: CurrentState, player: usize, axis: i64)
        requires
            old(registry).wf(),
            player < old(registry).tanks@.len(),
        ensures
            final(registry).wf(),
            state is PlayerTurn && axis != 0 ==> final(registry).tanks@ == old(
                registry,
            ).tanks@.update(
                player as int,
                (Tank {
                    gun_angle: spec_aimed_angle(
                        old(registry).tanks@[player as int].gun_angle as int,
                        axis as int,
                    ) as i64,
                    ..old(registry).tanks@[player as int]
                }),
            ) && final(registry).guns@ == old(registry).guns@.update(
                old(registry).tanks@[player as int].gun as int,
                (TankGun {
                    rotation: spec_aimed_angle(
                        old(registry).tanks@[player as int].gun_angle as int,
                        axis as int,
                    ) as i64,
                    ..old(registry).guns@[old(registry).tanks@[player as int].gun as int]
                }),
            ),
            state is PlayerTurn ==> final(registry).tanks@[player as int].gun_angle as int
                == spec_aimed_angle(old(registry).tanks@[player as int].gun_angle as int, axis as int),
            !(state is PlayerTurn) || axis == 0 ==> *final(registry) == *old(registry),
            final(registry).bullets@ == old(registry).bullets@,
            final(registry).tanks@.len() == old(registry).tanks@.len(),
            final(registry).guns@.len() == old(registry).guns@.len(),
    {
        match state {
            CurrentState::PlayerTurn => {
                if axis != 0 {
                    proof {
                        assert(old(registry).tank_ok(player as int));
                        assert(-200000000000000000 <= spec_aim_delta(axis as int)
                            <= 200000000000000000) by (nonlinear_arith)
                            requires
                                -9223372036854775808 <= axis <= 9223372036854775807,
                        ;
                    }
                    let tank = registry.tanks[player];
                    let delta = scale_milli(axis, AIM_SCALER);
                    let new_angle = clamp_angle(tank.gun_angle + delta);
                    registry.set_gun_angle(player, new_angle);
                } else {
                    proof {
                        assert(old(registry).tank_ok(player as int));
                        assert(spec_aim_delta(0) == 0);
                    }
                }
            },
            _ => {},
        }
    }
}

} // verus!
