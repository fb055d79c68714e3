//! The simulation loop: one `GameState` owns the entity registry, the two
//! tank ids and the turn state, and drives the fixed per-tick order — aim,
//! integrate, transition, publish.
//!
//! `spec_tick` is the mathematical model of a whole tick; `GameState::tick`
//! is proved to realise it exactly.
use vstd::prelude::*;

use crate::aim::spec_aimed_angle;
use crate::aim::AimSystem;
use crate::angle::spec_decompose_x;
use crate::angle::spec_decompose_y;
use crate::angle::decompose;
use crate::ballistics::spec_step_bullet;
use crate::ballistics::BulletSystem;
use crate::entities::BulletState;
use crate::entities::Registry;
use crate::entities::Side;
use crate::entities::Tank;
use crate::entities::TankBullet;
use crate::entities::TankGun;
use crate::math::sat_add;
use crate::math::sat_i64;
use crate::turn::next_turn;
use crate::turn::spec_next_turn;
use crate::turn::CurrentState;
use crate::MUZZLE_OFFSET;
use crate::MUZZLE_SPEED;
use crate::TANK_Y;

verus! {

/// Fixed spawn x-position of the player tank, in milli-units: ten units left
/// of the centre of the play space.
pub const PLAYER_X: i64 = 12000;

/// Fixed spawn x-position of the AI tank, in milli-units.
pub const AI_X: i64 = 72000;

/// The player's gun starts at 45 degrees, in milliradians.
pub const PLAYER_START_ANGLE: i64 = 785;

/// The AI's gun is requested at 135 degrees, in milliradians; creation clamps
/// it to the legal quarter turn.
pub const AI_START_ANGLE: i64 = 2356;

/// Sprite index of a tank body on the shared sprite sheet.
pub const SPRITE_TANK: u32 = 0;

/// Sprite index of a tank gun on the shared sprite sheet.
pub const SPRITE_GUN: u32 = 1;

/// Sprite index of a bullet on the shared sprite sheet.
pub const SPRITE_BULLET: u32 = 2;

/// The turn state and the ids of the duel's two tanks.
pub struct GameResource {
    pub current_state: CurrentState,
    pub player: usize,
    pub ai: usize,
}

/// One tick's polled input: the continuous aim axis in thousandths of full
/// deflection, the edge-triggered fire action, and the confirm action.
#[derive(Clone, Copy, Debug, PartialEq, Eq, Structural)]
pub struct TickInput {
    pub axis: i64,
    pub fire: bool,
    pub confirm: bool,
}

/// A read-only snapshot of one entity for the rendering collaborator: world
/// position and rotation in milli-units, and a sprite index by convention.
#[derive(Clone, Copy, Debug, PartialEq, Eq, Structural)]
pub struct RenderInstance {
    pub x: i64,
    pub y: i64,
    pub rotation: i64,
    pub sprite: u32,
}

/// The mathematical value of a whole game state.
#[verifier::ext_equal]
pub ghost struct GameModel {
    pub tanks: Seq<Tank>,
    pub guns: Seq<TankGun>,
    pub bullets: Seq<TankBullet>,
    pub state: CurrentState,
    pub player: int,
    pub ai: int,
}

/// Some bullet is still flying.
pub open spec fn any_flying(bs: Seq<TankBullet>) -> bool {
    exists|k: int| 0 <= k < bs.len() && (#[trigger] bs[k]).state is Flying
}

/// Strictly turn-based play never has two bullets in the air.
pub open spec fn at_most_one_flying(bs: Seq<TankBullet>) -> bool {
    forall|k1: int, k2: int|
        0 <= k1 < bs.len() && 0 <= k2 < bs.len() && (#[trigger] bs[k1]).state is Flying
            && (#[trigger] bs[k2]).state is Flying ==> k1 == k2
}

/// The bullet spawned by a fire action: it leaves from the muzzle exit point
/// — the tank's position plus the barrel offset decomposed along the gun
/// angle — with the muzzle speed decomposed along the same angle.
pub open spec fn spec_spawned_bullet(tank: Tank) -> TankBullet {
    TankBullet {
        x: sat_i64(tank.x + spec_decompose_x(tank.gun_angle as int, MUZZLE_OFFSET as int)) as i64,
        y: (TANK_Y + spec_decompose_y(tank.gun_angle as int, MUZZLE_OFFSET as int)) as i64,
        vx: spec_decompose_x(tank.gun_angle as int, MUZZLE_SPEED as int) as i64,
        vy: spec_decompose_y(tank.gun_angle as int, MUZZLE_SPEED as int) as i64,
        state: BulletState::Flying,
    }
}

/// Step 1 of a tick: while it is the player's turn, aiming moves the player
/// tank's gun angle and its gun's derived rotation; otherwise nothing moves.
pub open spec fn spec_aim_stage(m: GameModel, axis: int) -> GameModel {
    if m.state is PlayerTurn && axis != 0 {
        let t = m.tanks[m.player];
        let a = spec_aimed_angle(t.gun_angle as int, axis);
        GameModel {
            tanks: m.tanks.update(m.player, Tank { gun_angle: a as i64, ..t }),
            guns: m.guns.update(t.gun as int, TankGun { rotation: a as i64, ..m.guns[t.gun as int] }),
            ..m
        }
    } else {
        m
    }
}

/// Step 2 of a tick: every bullet is integrated one step; flying ones move
/// under gravity, grounded ones are never mutated again.
pub open spec fn spec_integrate_stage(m: GameModel, dt_ms: int) -> GameModel {
    GameModel {
        bullets: Seq::new(m.bullets.len(), |k: int| spec_step_bullet(m.bullets[k], dt_ms)),
        ..m
    }
}

/// Step 3 of a tick: at most one turn transition. A fire action during
/// `PlayerTurn` spawns a bullet from the player tank and moves play to
/// `BulletInFlight`; everywhere else a fire action has no effect at all.
pub open spec fn spec_transition_stage(m: GameModel, fire: bool, confirm: bool) -> GameModel {
    GameModel {
        state: spec_next_turn(m.state, fire, !any_flying(m.bullets), confirm),
        bullets: if m.state is PlayerTurn && fire {
            m.bullets.push(spec_spawned_bullet(m.tanks[m.player]))
        } else {
            m.bullets
        },
        ..m
    }
}

/// A whole tick: aim, integrate, then transition.
pub open spec fn spec_tick(m: GameModel, input: TickInput, dt_ms: int) -> GameModel {
    spec_transition_stage(
        spec_integrate_stage(spec_aim_stage(m, input.axis as int), dt_ms),
        input.fire,
        input.confirm,
    )
}

/// The per-entity snapshot published to the rendering collaborator after a
/// tick: every tank body, then every gun, then every bullet. A gun's world
/// transform is composed on demand: its owner's position with its own
/// rotation.
pub open spec fn spec_render(tanks: Seq<Tank>, bullets: Seq<TankBullet>) -> Seq<RenderInstance> {
    Seq::new(
        tanks.len(),
        |i: int| RenderInstance { x: tanks[i].x, y: TANK_Y, rotation: 0, sprite: SPRITE_TANK },
    ) + Seq::new(
        tanks.len(),
        |i: int|
            RenderInstance {
                x: tanks[i].x,
                y: TANK_Y,
                rotation: tanks[i].gun_angle,
                sprite: SPRITE_GUN,
            },
    ) + Seq::new(
        bullets.len(),
        |i: int| RenderInstance { x: bullets[i].x, y: bullets[i].y, rotation: 0, sprite: SPRITE_BULLET },
    )
}

/// The turn bookkeeping survives any tick: never two bullets in the air, and
/// the state reads `BulletInFlight` exactly while one flies.
pub proof fn lemma_tick_turn_ok(m: GameModel, input: TickInput, dt_ms: int)
    requires
        at_most_one_flying(m.bullets),
        (m.state is BulletInFlight) <==> any_flying(m.bullets),
    ensures
        at_most_one_flying(spec_tick(m, input, dt_ms).bullets),
        (spec_tick(m, input, dt_ms).state is BulletInFlight) <==> any_flying(
            spec_tick(m, input, dt_ms).bullets,
        ),
{
    let m1 = spec_aim_stage(m, input.axis as int);
    let m2 = spec_integrate_stage(m1, dt_ms);
    let m3 = spec_transition_stage(m2, input.fire, input.confirm);
    assert(m1.bullets == m.bullets && m1.state == m.state);
    assert(m2.state == m.state && m2.bullets.len() == m.bullets.len());
    assert forall|k: int|
        0 <= k < m2.bullets.len() && (#[trigger] m2.bullets[k]).state is Flying implies m.bullets[k].state
        is Flying by {
        assert(m2.bullets[k] == spec_step_bullet(m.bullets[k], dt_ms));
    }
    assert(at_most_one_flying(m2.bullets));
    if !(m.state is BulletInFlight) {
        assert forall|k: int|
            0 <= k < m2.bullets.len() implies !((#[trigger] m2.bullets[k]).state is Flying) by {
            if m2.bullets[k].state is Flying {
                assert(m.bullets[k].state is Flying);
                assert(any_flying(m.bullets));
            }
        }
        assert(!any_flying(m2.bullets));
    }
    match m.state {
        CurrentState::PlayerTurn => {
            if input.fire {
                let last = m2.bullets.len() as int;
                assert(m3.bullets == m2.bullets.push(spec_spawned_bullet(m2.tanks[m2.player])));
                assert(m3.bullets[last].state is Flying);
                assert(any_flying(m3.bullets));
                assert forall|k1: int, k2: int|
                    0 <= k1 < m3.bullets.len() && 0 <= k2 < m3.bullets.len() && (
                    #[trigger] m3.bullets[k1]).state is Flying && (#[trigger] m3.bullets[k2]).state
                        is Flying implies k1 == k2 by {
                    if k1 < last {
                        assert(m3.bullets[k1] == m2.bullets[k1]);
                        assert(any_flying(m2.bullets));
                    }
                    if k2 < last {
                        assert(m3.bullets[k2] == m2.bullets[k2]);
                        assert(any_flying(m2.bullets));
                    }
                }
            }
        },
        CurrentState::BulletInFlight => {
            assert(m3.bullets == m2.bullets);
        },
        CurrentState::AITurn => {
            assert(m3.bullets == m2.bullets);
        },
    }
}

/// A fire action accepted during `PlayerTurn` creates exactly one bullet,
/// flying, with initial velocity exactly the muzzle speed decomposed along
/// the gun angle the tick's aiming left: `(10·cos θ, 10·sin θ)` world units
/// per second.
pub proof fn lemma_fire_velocity(m: GameModel, input: TickInput, dt_ms: int)
    requires
        m.state is PlayerTurn,
        input.fire,
    ensures
        spec_tick(m, input, dt_ms).bullets.len() == m.bullets.len() + 1,
        ({
            let theta = spec_aim_stage(m, input.axis as int).tanks[m.player].gun_angle as int;
            let b = spec_tick(m, input, dt_ms).bullets.last();
            b.state is Flying && b.vx == spec_decompose_x(theta, MUZZLE_SPEED as int)
                && b.vy == spec_decompose_y(theta, MUZZLE_SPEED as int)
        }),
{
    let m1 = spec_aim_stage(m, input.axis as int);
    let m2 = spec_integrate_stage(m1, dt_ms);
    assert(m2.tanks == m1.tanks && m2.player == m.player);
    assert(spec_tick(m, input, dt_ms).bullets == m2.bullets.push(
        spec_spawned_bullet(m2.tanks[m2.player]),
    ));
}

/// A fire action issued while the state is `AITurn` or `BulletInFlight` has
/// no observable effect: the tick leaves exactly the state a fireless tick
/// leaves, and no bullet is created.
pub proof fn lemma_fire_ignored_outside_player_turn(m: GameModel, input: TickInput, dt_ms: int)
    requires
        !(m.state is PlayerTurn),
    ensures
        spec_tick(m, input, dt_ms) == spec_tick(m, (TickInput { fire: false, ..input }), dt_ms),
        spec_tick(m, input, dt_ms).bullets.len() == m.bullets.len(),
{
    let quiet = TickInput { fire: false, ..input };
    assert(spec_aim_stage(m, input.axis as int) == spec_aim_stage(m, quiet.axis as int));
    assert(spec_tick(m, input, dt_ms) =~= spec_tick(m, quiet, dt_ms));
}

/// The whole simulation: registry, turn resource, and the two per-tick
/// systems.
pub struct GameState {
    pub registry: Registry,
    pub resource: GameResource,
    pub aim: AimSystem,
    pub ballistics: BulletSystem,
}

impl GameState {
    /// The mathematical value of this state.
    pub open spec fn model(self) -> GameModel {
        GameModel {
            tanks: self.registry.tanks@,
            guns: self.registry.guns@,
            bullets: self.registry.bullets@,
            state: self.resource.current_state,
            player: self.resource.player as int,
            ai: self.resource.ai as int,
        }
    }

    /// The turn resource points at live tanks, no two bullets fly at once,
    /// and the turn state says `BulletInFlight` exactly while one flies.
    pub open spec fn turn_ok(self) -> bool {
        &&& (self.resource.player as int) < self.registry.tanks@.len()
        &&& (self.resource.ai as int) < self.registry.tanks@.len()
        &&& at_most_one_flying(self.registry.bullets@)
        &&& (self.resource.current_state is BulletInFlight) <==> any_flying(self.registry.bullets@)
    }

    /// The whole world is consistent.
    pub open spec fn wf(self) -> bool {
        &&& self.registry.wf()
        &&& self.turn_ok()
    }

    /// A fresh duel: the player tank left of centre at 45 degrees, the AI
    /// tank right of centre with its requested angle clamped, no bullets,
    /// and the player's turn to move.
    pub fn new() -> (g: GameState)
        ensures
            g.wf(),
            g.resource.current_state is PlayerTurn,
            g.registry.tanks@.len() == 2,
            g.registry.bullets@.len() == 0,
            g.resource.player as int == 0,
            g.resource.ai as int == 1,
            g.registry.tanks@[0].side is Player,
            g.registry.tanks@[0].x == PLAYER_X,
            g.registry.tanks@[0].gun_angle == PLAYER_START_ANGLE,
            g.registry.tanks@[1].side is Ai,
            g.registry.tanks@[1].x == AI_X,
            g.registry.tanks@[1].gun_angle == crate::HALF_PI_MILLIRAD,
            g.registry.guns@.len() == 2,
            g.registry.tanks@[0].gun == 0,
            g.registry.tanks@[1].gun == 1,
    {
        let mut registry = Registry::new();
        let (player, _player_gun) = registry.create_tank(Side::Player, PLAYER_X, PLAYER_START_ANGLE);
        let (ai, _ai_gun) = registry.create_tank(Side::Ai, AI_X, AI_START_ANGLE);
        let resource = GameResource { current_state: CurrentState::default(), player, ai };
        GameState { registry, resource, aim: AimSystem, ballistics: BulletSystem }
    }

    /// Whether any bullet is still flying.
    #[verifier::loop_isolation(false)]
    pub fn any_flying_bullet(&self) -> (r: bool)
        ensures
            r == any_flying(self.registry.bullets@),
    {
        let n = self.registry.bullets.len();
        let mut k: usize = 0;
        while k < n
            invariant
                0 <= k <= n,
                forall|j: int| 0 <= j < k ==> !((#[trigger] self.registry.bullets@[j]).state is Flying),
            decreases n - k,
        {
            if matches!(self.registry.bullets[k].state, BulletState::Flying) {
                return true;
            }
            k = k + 1;
        }
        false
    }

    /// One tick of the simulation, in the fixed order: feed the aim input to
    /// the aim controller, integrate every bullet, apply at most one turn
    /// transition, and publish the snapshot of every entity. The returned
    /// state is exactly `spec_tick` of the old one.
    pub fn tick(&mut self, input: TickInput, dt_ms: i64) -> (frame: Vec<RenderInstance>)
        requires
            old(self).wf(),
        ensures
            final(self).wf(),
            final(self).model() == spec_tick(old(self).model(), input, dt_ms as int),
            frame@ == spec_render(final(self).registry.tanks@, final(self).registry.bullets@),
    {
        let ghost m0 = old(self).model();
        let state0 = self.resource.current_state;
        let player = self.resource.player;
        // 1. aim
        self.aim.run(&mut self.registry, state0, player, input.axis);
        let ghost m1 = spec_aim_stage(m0, input.axis as int);
        proof {
            assert(self.model() =~= m1);
        }
        // 2. integrate
        self.ballistics.run(&mut self.registry, dt_ms);
        let ghost m2 = spec_integrate_stage(m1, dt_ms as int);
        proof {
            assert(self.model().bullets =~= m2.bullets);
            assert(self.model() =~= m2);
        }
        // 3. transition
        let grounded = !self.any_flying_bullet();
        let next = next_turn(state0, input.fire, grounded, input.confirm);
        if matches!(state0, CurrentState::PlayerTurn) && input.fire {
            proof {
                assert(self.registry.tank_ok(player as int));
            }
            let tank = self.registry.tanks[player];
            let (ox, oy) = decompose(tank.gun_angle, MUZZLE_OFFSET);
            let px = sat_add(tank.x, ox);
            let py = TANK_Y + oy;
            let (vx, vy) = decompose(tank.gun_angle, MUZZLE_SPEED);
            let _bullet_id = self.registry.create_bullet(px, py, vx, vy);
        }
        self.resource.current_state = next;
        let ghost m3 = spec_transition_stage(m2, input.fire, input.confirm);
        proof {
            assert(self.model() =~= m3);
            lemma_tick_turn_ok(m0, input, dt_ms as int);
            assert(self.model() =~= spec_tick(m0, input, dt_ms as int));
        }
        // 4. publish
        self.render()
    }

    /// Publishes the read-only per-entity snapshot of the current state.
    #[verifier::loop_isolation(false)]
    pub fn render(&self) -> (frame: Vec<RenderInstance>)
        ensures
            frame@ == spec_render(self.registry.tanks@, self.registry.bullets@),
    {
        let mut frame: Vec<RenderInstance> = Vec::new();
        let nt = self.registry.tanks.len();
        let nb = self.registry.bullets.len();
        let ghost bodies = Seq::new(
            self.registry.tanks@.len(),
            |i: int|
                RenderInstance {
                    x: self.registry.tanks@[i].x,
                    y: TANK_Y,
                    rotation: 0,
                    sprite: SPRITE_TANK,
                },
        );
        let ghost gun_arms = Seq::new(
            self.registry.tanks@.len(),
            |i: int|
                RenderInstance {
                    x: self.registry.tanks@[i].x,
                    y: TANK_Y,
                    rotation: self.registry.tanks@[i].gun_angle,
                    sprite: SPRITE_GUN,
                },
        );
        let ghost shots = Seq::new(
            self.registry.bullets@.len(),
            |i: int|
                RenderInstance {
                    x: self.registry.bullets@[i].x,
                    y: self.registry.bullets@[i].y,
                    rotation: 0,
                    sprite: SPRITE_BULLET,
                },
        );
        let mut i: usize = 0;
        while i < nt
            invariant
                0 <= i <= nt,
                frame@ == bodies.subrange(0, i as int),
            decreases nt - i,
        {
            let t = self.registry.tanks[i];
            frame.push(RenderInstance { x: t.x, y: TANK_Y, rotation: 0, sprite: SPRITE_TANK });
            proof {
                assert(frame@ =~= bodies.subrange(0, i + 1 as int));
            }
            i = i + 1;
        }
        let mut j: usize = 0;
        while j < nt
            invariant
                0 <= j <= nt,
                frame@ == bodies + gun_arms.subrange(0, j as int),
            decreases nt - j,
        {
            let t = self.registry.tanks[j];
            frame.push(
                RenderInstance { x: t.x, y: TANK_Y, rotation: t.gun_angle, sprite: SPRITE_GUN },
            );
            proof {
                assert(frame@ =~= bodies + gun_arms.subrange(0, j + 1 as int));
            }
            j = j + 1;
        }
        let mut k: usize = 0;
        while k < nb
            invariant
                0 <= k <= nb,
                frame@ == bodies + gun_arms + shots.subrange(0, k as int),
            decreases nb - k,
        {
            let b = self.registry.bullets[k];
            frame.push(RenderInstance { x: b.x, y: b.y, rotation: 0, sprite: SPRITE_BULLET });
            proof {
                assert(frame@ =~= bodies + gun_arms + shots.subrange(0, k + 1 as int));
            }
            k = k + 1;
        }
        proof {
            assert(bodies.subrange(0, nt as int) =~= bodies);
            assert(gun_arms.subrange(0, nt as int) =~= gun_arms);
            assert(shots.subrange(0, nb as int) =~= shots);
            assert(frame@ =~= spec_render(self.registry.tanks@, self.registry.bullets@));
        }
        frame
    }
}

} // verus!
