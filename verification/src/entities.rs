//! The entity registry: arena-style indexed stores for the Tank, Gun and
//! Bullet records, and the Gun→Tank parent relationship.
//!
//! An id is an index into the store that created it. Nothing is ever
//! destroyed implicitly, so an id is valid exactly when it is below the
//! store's length.
use vstd::prelude::*;

use crate::angle::clamp_angle;
use crate::angle::spec_clamp_angle;
use crate::GROUND_HEIGHT;
use crate::HALF_PI_MILLIRAD;

verus! {

/// The two parties of the duel.
#[derive(Clone, Copy, Debug, PartialEq, Eq, Structural)]
pub enum Side {
    Player,
    Ai,
}

/// Lifecycle of a bullet: it flies until it contacts the ground plane, and
/// Grounded is terminal.
#[derive(Clone, Copy, Debug, PartialEq, Eq, Structural)]
pub enum BulletState {
    Flying,
    Grounded,
}

/// A tank. Its ground x-position is fixed after spawn; its y-position is
/// always `TANK_Y`. It owns exactly one gun.
#[derive(Clone, Copy, Debug, PartialEq, Eq, Structural)]
pub struct Tank {
    pub side: Side,
    /// Ground x-position, in milli-units.
    pub x: i64,
    /// Gun elevation in milliradians, always in [0, π/2].
    pub gun_angle: i64,
    /// Id of the owned gun.
    pub gun: usize,
}

/// A tank's gun. It is never independently translated: its world position is
/// its owning tank's, and its world rotation always equals the owning tank's
/// gun angle.
#[derive(Clone, Copy, Debug, PartialEq, Eq, Structural)]
pub struct TankGun {
    /// Id of the owning tank.
    pub owner: usize,
    /// Derived world rotation in milliradians; tracks the owner's gun angle.
    pub rotation: i64,
}

/// A bullet in ballistic flight or at rest on the ground. Positions are
/// milli-units, velocities milli-units per second.
#[derive(Clone, Copy, Debug, PartialEq, Eq, Structural)]
pub struct TankBullet {
    pub x: i64,
    pub y: i64,
    pub vx: i64,
    pub vy: i64,
    pub state: BulletState,
}

impl TankBullet {
    /// A bullet never sits below the ground plane, and a grounded bullet's
    /// velocity is fixed at (0, 0).
    pub open spec fn wf(self) -> bool {
        &&& self.y >= GROUND_HEIGHT
        &&& self.state is Grounded ==> self.vx == 0 && self.vy == 0
    }
}

/// Failure of an entity lookup: the id has no backing record.
#[derive(Clone, Copy, Debug, PartialEq, Eq, Structural)]
pub enum EntityError {
    NotFound,
}

/// The arena stores. Tank and gun records are created in pairs, so the
/// Gun→Tank links form a bijection.
pub struct Registry {
    pub tanks: Vec<Tank>,
    pub guns: Vec<TankGun>,
    pub bullets: Vec<TankBullet>,
}

impl Registry {
    /// The tank at index `i` has a legal gun angle and a backing gun record
    /// that points back at it and mirrors its angle.
    pub open spec fn tank_ok(self, i: int) -> bool {
        &&& 0 <= self.tanks@[i].gun_angle <= HALF_PI_MILLIRAD as int
        &&& (self.tanks@[i].gun as int) < self.guns@.len()
        &&& self.guns@[self.tanks@[i].gun as int].owner == i
        &&& self.guns@[self.tanks@[i].gun as int].rotation == self.tanks@[i].gun_angle
    }

    /// The gun at index `j` is owned by a tank that owns exactly it.
    pub open spec fn gun_ok(self, j: int) -> bool {
        &&& (self.guns@[j].owner as int) < self.tanks@.len()
        &&& self.tanks@[self.guns@[j].owner as int].gun == j
    }

    /// Every record in the registry is internally consistent.
    pub open spec fn wf(self) -> bool {
        &&& forall|i: int| 0 <= i < self.tanks@.len() ==> #[trigger] self.tank_ok(i)
        &&& forall|j: int| 0 <= j < self.guns@.len() ==> #[trigger] self.gun_ok(j)
        &&& forall|k: int| 0 <= k < self.bullets@.len() ==> (#[trigger] self.bullets@[k]).wf()
    }

    /// An empty registry.
    pub fn new() -> (r: Registry)
        ensures
            r.wf(),
            r.tanks@.len() == 0,
            r.guns@.len() == 0,
            r.bullets@.len() == 0,
    {
        Registry { tanks: Vec::new(), guns: Vec::new(), bullets: Vec::new() }
    }

    /// Creates a tank and its owned gun, the gun angle clamped into [0, π/2].
    /// Always succeeds; returns the new tank id and gun id.
    pub fn create_tank(&mut self, side: Side, x: i64, initial_gun_angle: i64) -> (ids: (
        usize,
        usize,
    ))
        requires
            old(self).wf(),
        ensures
            final(self).wf(),
            ids.0 == old(self).tanks@.len(),
            ids.1 == old(self).guns@.len(),
            final(self).tanks@ == old(self).tanks@.push(
                (Tank {
                    side,
                    x,
                    gun_angle: spec_clamp_angle(initial_gun_angle as int) as i64,
                    gun: ids.1,
                }),
            ),
            final(self).guns@ == old(self).guns@.push(
                (TankGun {
                    owner: ids.0,
                    rotation: spec_clamp_angle(initial_gun_angle as int) as i64,
                }),
            ),
            final(self).bullets@ == old(self).bullets@,
    {
        let angle = clamp_angle(initial_gun_angle);
        let tank_id = self.tanks.len();
        let gun_id = self.guns.len();
        self.tanks.push(Tank { side, x, gun_angle: angle, gun: gun_id });
        self.guns.push(TankGun { owner: tank_id, rotation: angle });
        proof {
            assert forall|i: int| 0 <= i < self.tanks@.len() implies #[trigger] self.tank_ok(i) by {
                if i < old(self).tanks@.len() {
                    assert(old(self).tank_ok(i));
                }
            }
            assert forall|j: int| 0 <= j < self.guns@.len() implies #[trigger] self.gun_ok(j) by {
                if j < old(self).guns@.len() {
                    assert(old(self).gun_ok(j));
                }
            }
        }
        (tank_id, gun_id)
    }

    /// Creates a Flying bullet at the given position with the given velocity.
    /// Always succeeds; returns the new bullet id.
    pub fn create_bullet(&mut self, x: i64, y: i64, vx: i64, vy: i64) -> (id: usize)
        requires
            old(self).wf(),
            y >= GROUND_HEIGHT,
        ensures
            final(self).wf(),
            id == old(self).bullets@.len(),
            final(self).bullets@ == old(self).bullets@.push(
                (TankBullet { x, y, vx, vy, state: BulletState::Flying }),
            ),
            final(self).tanks@ == old(self).tanks@,
            final(self).guns@ == old(self).guns@,
    {
        let id = self.bullets.len();
        self.bullets.push(TankBullet { x, y, vx, vy, state: BulletState::Flying });
        proof {
            assert forall|i: int| 0 <= i < self.tanks@.len() implies #[trigger] self.tank_ok(i) by {
                assert(old(self).tank_ok(i));
            }
            assert forall|j: int| 0 <= j < self.guns@.len() implies #[trigger] self.gun_ok(j) by {
                assert(old(self).gun_ok(j));
            }
        }
        id
    }

    /// Looks a tank up by id; fails with `NotFound` exactly when the id was
    /// never created.
    pub fn get_tank(&self, id: usize) -> (r: Result<Tank, EntityError>)
        ensures
            id < self.tanks@.len() ==> r == Ok::<Tank, EntityError>(self.tanks@[id as int]),
            id >= self.tanks@.len() ==> r == Err::<Tank, EntityError>(EntityError::NotFound),
    {
        if id < self.tanks.len() {
            Ok(self.tanks[id])
        } else {
            Err(EntityError::NotFound)
        }
    }

    /// Looks a gun up by id; fails with `NotFound` exactly when the id was
    /// never created.
    pub fn get_gun(&self, id: usize) -> (r: Result<TankGun, EntityError>)
        ensures
            id < self.guns@.len() ==> r == Ok::<TankGun, EntityError>(self.guns@[id as int]),
            id >= self.guns@.len() ==> r == Err::<TankGun, EntityError>(EntityError::NotFound),
    {
        if id < self.guns.len() {
            Ok(self.guns[id])
        } else {
            Err(EntityError::NotFound)
        }
    }

    /// Looks a bullet up by id; fails with `NotFound` exactly when the id was
    /// never created.
    pub fn get_bullet(&self, id: usize) -> (r: Result<TankBullet, EntityError>)
        ensures
            id < self.bullets@.len() ==> r == Ok::<TankBullet, EntityError>(
                self.bullets@[id as int],
            ),
            id >= self.bullets@.len() ==> r == Err::<TankBullet, EntityError>(
                EntityError::NotFound,
            ),
    {
        if id < self.bullets.len() {
            Ok(self.bullets[id])
        } else {
            Err(EntityError::NotFound)
        }
    }

    /// Writes a new elevation to a tank's record and, in the same step, to
    /// its gun's derived rotation, so the two never drift apart.
    pub fn set_gun_angle(&mut self, tank_id: usize, angle: i64)
        requires
            old(self).wf(),
            tank_id < old(self).tanks@.len(),
            0 <= angle <= HALF_PI_MILLIRAD,
        ensures
            final(self).wf(),
            final(self).tanks@ == old(self).tanks@.update(
                tank_id as int,
                (Tank { gun_angle: angle, ..old(self).tanks@[tank_id as int] }),
            ),
            final(self).guns@ == old(self).guns@.update(
                old(self).tanks@[tank_id as int].gun as int,
                (TankGun {
                    rotation: angle,
                    ..old(self).guns@[old(self).tanks@[tank_id as int].gun as int]
                }),
            ),
            final(self).bullets@ == old(self).bullets@,
    {
        proof {
            assert(old(self).tank_ok(tank_id as int));
        }
        let tank = self.tanks[tank_id];
        let gun_id = tank.gun;
        let gun = self.guns[gun_id];
        self.tanks.set(tank_id, Tank { gun_angle: angle, ..tank });
        self.guns.set(gun_id, TankGun { rotation: angle, ..gun });
        proof {
            assert forall|i: int| 0 <= i < self.tanks@.len() implies #[trigger] self.tank_ok(i) by {
                assert(old(self).tank_ok(i));
                assert(old(self).gun_ok(old(self).tanks@[i].gun as int));
            }
            assert forall|j: int| 0 <= j < self.guns@.len() implies #[trigger] self.gun_ok(j) by {
                assert(old(self).gun_ok(j));
                assert(old(self).tank_ok(old(self).guns@[j].owner as int));
            }
        }
    }
}

} // verus!
