use tank_duel::aim::FireTrigger;
use tank_duel::entities::BulletState;
use tank_duel::game::GameState;
use tank_duel::game::RenderInstance;
use tank_duel::game::TickInput;
use tank_duel::game::AI_X;
use tank_duel::game::PLAYER_X;
use tank_duel::game::SPRITE_BULLET;
use tank_duel::game::SPRITE_GUN;
use tank_duel::game::SPRITE_TANK;
use tank_duel::turn::next_turn;
use tank_duel::turn::CurrentState;
use tank_duel::GROUND_HEIGHT;
use tank_duel::HALF_PI_MILLIRAD;
use tank_duel::TANK_Y;

fn quiet() -> TickInput {
    TickInput { axis: 0, fire: false, confirm: false }
}

#[test]
fn new_game_starts_in_player_turn() {
    let g = GameState::new();
    assert_eq!(g.resource.current_state, CurrentState::PlayerTurn);
    let player = g.registry.get_tank(g.resource.player).unwrap();
    assert_eq!(player.x, PLAYER_X);
    assert_eq!(player.gun_angle, 785);
    let ai = g.registry.get_tank(g.resource.ai).unwrap();
    assert_eq!(ai.x, AI_X);
    assert_eq!(ai.gun_angle, HALF_PI_MILLIRAD);
    assert_eq!(g.registry.bullets.len(), 0);
}

#[test]
fn fire_spawns_bullet_with_decomposed_velocity() {
    let mut g = GameState::new();
    g.tick(TickInput { axis: 0, fire: true, confirm: false }, 1000);
    assert_eq!(g.resource.current_state, CurrentState::BulletInFlight);
    assert_eq!(g.registry.bullets.len(), 1);
    let b = g.registry.get_bullet(0).unwrap();
    // Muzzle exit: tank position plus five units along the 45-degree barrel.
    assert_eq!((b.x, b.y), (PLAYER_X + 3535, TANK_Y + 3535));
    // Muzzle speed ten units per second along the same angle: near (7.07, 7.07).
    assert_eq!((b.vx, b.vy), (7070, 7070));
    assert_eq!(b.state, BulletState::Flying);
}

#[test]
fn full_round_trip_returns_to_player_turn() {
    let mut g = GameState::new();
    g.tick(TickInput { axis: 0, fire: true, confirm: false }, 1000);
    assert_eq!(g.resource.current_state, CurrentState::BulletInFlight);
    let mut ticks = 0;
    while g.resource.current_state == CurrentState::BulletInFlight {
        g.tick(quiet(), 1000);
        ticks += 1;
        assert!(ticks < 100, "bullet never grounded");
    }
    assert_eq!(g.resource.current_state, CurrentState::AITurn);
    assert_eq!(g.registry.get_bullet(0).unwrap().state, BulletState::Grounded);
    // A confirm action hands the turn back to the player.
    g.tick(TickInput { axis: 0, fire: false, confirm: true }, 1000);
    assert_eq!(g.resource.current_state, CurrentState::PlayerTurn);
}

#[test]
fn bullet_flight_path_is_exact() {
    let mut g = GameState::new();
    g.tick(TickInput { axis: 0, fire: true, confirm: false }, 1000);
    g.tick(quiet(), 1000);
    let b = g.registry.get_bullet(0).unwrap();
    assert_eq!((b.x, b.y, b.vx, b.vy), (22605, 8295, 7070, -2740));
    assert_eq!(b.state, BulletState::Flying);
    g.tick(quiet(), 1000);
    let b = g.registry.get_bullet(0).unwrap();
    assert_eq!((b.x, b.y, b.vx, b.vy), (29675, GROUND_HEIGHT, 0, 0));
    assert_eq!(b.state, BulletState::Grounded);
    assert_eq!(g.resource.current_state, CurrentState::AITurn);
}

#[test]
fn bullet_never_falls_below_ground() {
    let mut g = GameState::new();
    g.tick(TickInput { axis: 0, fire: true, confirm: false }, 1000);
    let dts = [1, 10, 250, 1000, 3000, 0, 7, 60000, 1000, 1000, 12];
    for dt in dts {
        g.tick(quiet(), dt);
        let b = g.registry.get_bullet(0).unwrap();
        assert!(b.y >= GROUND_HEIGHT);
    }
}

#[test]
fn grounded_bullet_stays_put_with_zero_velocity() {
    let mut g = GameState::new();
    g.tick(TickInput { axis: 0, fire: true, confirm: false }, 1000);
    while g.resource.current_state == CurrentState::BulletInFlight {
        g.tick(quiet(), 1000);
    }
    let rest = g.registry.get_bullet(0).unwrap();
    assert_eq!((rest.vx, rest.vy), (0, 0));
    for dt in [1000, 5, 60000, 0] {
        g.tick(quiet(), dt);
        assert_eq!(g.registry.get_bullet(0).unwrap(), rest);
    }
}

#[test]
fn fire_is_ignored_during_flight() {
    let mut g = GameState::new();
    g.tick(TickInput { axis: 0, fire: true, confirm: false }, 1000);
    assert_eq!(g.registry.bullets.len(), 1);
    // Still in flight after one second: firing again must do nothing.
    g.tick(TickInput { axis: 0, fire: true, confirm: false }, 1000);
    assert_eq!(g.registry.bullets.len(), 1);
    assert_eq!(g.resource.current_state, CurrentState::BulletInFlight);
}

#[test]
fn fire_is_ignored_during_ai_turn() {
    let mut g = GameState::new();
    g.tick(TickInput { axis: 0, fire: true, confirm: false }, 1000);
    while g.resource.current_state == CurrentState::BulletInFlight {
        g.tick(quiet(), 1000);
    }
    assert_eq!(g.resource.current_state, CurrentState::AITurn);
    g.tick(TickInput { axis: 0, fire: true, confirm: false }, 1000);
    assert_eq!(g.registry.bullets.len(), 1);
    assert_eq!(g.resource.current_state, CurrentState::AITurn);
}

#[test]
fn zero_aim_input_changes_nothing() {
    let mut g = GameState::new();
    let before_tank = g.registry.get_tank(g.resource.player).unwrap();
    let before_gun = g.registry.get_gun(before_tank.gun).unwrap();
    g.tick(quiet(), 1000);
    let after_tank = g.registry.get_tank(g.resource.player).unwrap();
    assert_eq!(after_tank.gun_angle, before_tank.gun_angle);
    assert_eq!(g.registry.get_gun(after_tank.gun).unwrap(), before_gun);
}

#[test]
fn aiming_moves_angle_and_rotation_together() {
    let mut g = GameState::new();
    g.tick(TickInput { axis: 1000, fire: false, confirm: false }, 1000);
    let tank = g.registry.get_tank(g.resource.player).unwrap();
    assert_eq!(tank.gun_angle, 805);
    assert_eq!(g.registry.get_gun(tank.gun).unwrap().rotation, 805);
    g.tick(TickInput { axis: -1000, fire: false, confirm: false }, 1000);
    let tank = g.registry.get_tank(g.resource.player).unwrap();
    assert_eq!(tank.gun_angle, 785);
}

#[test]
fn aiming_clamps_at_both_ends() {
    let mut g = GameState::new();
    for _ in 0..100 {
        g.tick(TickInput { axis: 1000, fire: false, confirm: false }, 1000);
        let a = g.registry.get_tank(g.resource.player).unwrap().gun_angle;
        assert!(0 <= a && a <= HALF_PI_MILLIRAD);
    }
    assert_eq!(g.registry.get_tank(g.resource.player).unwrap().gun_angle, HALF_PI_MILLIRAD);
    for _ in 0..100 {
        g.tick(TickInput { axis: -1000, fire: false, confirm: false }, 1000);
        let a = g.registry.get_tank(g.resource.player).unwrap().gun_angle;
        assert!(0 <= a && a <= HALF_PI_MILLIRAD);
    }
    assert_eq!(g.registry.get_tank(g.resource.player).unwrap().gun_angle, 0);
}

#[test]
fn aiming_is_ignored_outside_player_turn() {
    let mut g = GameState::new();
    g.tick(TickInput { axis: 0, fire: true, confirm: false }, 1000);
    let before = g.registry.get_tank(g.resource.player).unwrap().gun_angle;
    g.tick(TickInput { axis: 1000, fire: false, confirm: false }, 1000);
    assert_eq!(g.registry.get_tank(g.resource.player).unwrap().gun_angle, before);
}

#[test]
fn extreme_axis_input_still_clamps() {
    let mut g = GameState::new();
    g.tick(TickInput { axis: i64::MAX, fire: false, confirm: false }, 1000);
    assert_eq!(g.registry.get_tank(g.resource.player).unwrap().gun_angle, HALF_PI_MILLIRAD);
    g.tick(TickInput { axis: i64::MIN, fire: false, confirm: false }, 1000);
    assert_eq!(g.registry.get_tank(g.resource.player).unwrap().gun_angle, 0);
}

#[test]
fn zero_elapsed_time_moves_nothing() {
    let mut g = GameState::new();
    g.tick(TickInput { axis: 0, fire: true, confirm: false }, 1000);
    let before = g.registry.get_bullet(0).unwrap();
    g.tick(quiet(), 0);
    assert_eq!(g.registry.get_bullet(0).unwrap(), before);
    assert_eq!(g.resource.current_state, CurrentState::BulletInFlight);
}

#[test]
fn ai_gun_angle_is_never_mutated() {
    let mut g = GameState::new();
    for _ in 0..5 {
        g.tick(TickInput { axis: -1000, fire: false, confirm: false }, 1000);
    }
    assert_eq!(g.registry.get_tank(g.resource.ai).unwrap().gun_angle, HALF_PI_MILLIRAD);
}

#[test]
fn snapshot_lists_bodies_guns_and_bullets() {
    let mut g = GameState::new();
    let frame = g.render();
    assert_eq!(frame.len(), 4);
    assert_eq!(
        frame[0],
        RenderInstance { x: PLAYER_X, y: TANK_Y, rotation: 0, sprite: SPRITE_TANK },
    );
    assert_eq!(frame[1], RenderInstance { x: AI_X, y: TANK_Y, rotation: 0, sprite: SPRITE_TANK });
    assert_eq!(
        frame[2],
        RenderInstance { x: PLAYER_X, y: TANK_Y, rotation: 785, sprite: SPRITE_GUN },
    );
    assert_eq!(
        frame[3],
        RenderInstance { x: AI_X, y: TANK_Y, rotation: HALF_PI_MILLIRAD, sprite: SPRITE_GUN },
    );
    let frame = g.tick(TickInput { axis: 0, fire: true, confirm: false }, 1000);
    assert_eq!(frame.len(), 5);
    assert_eq!(frame[4].sprite, SPRITE_BULLET);
    let b = g.registry.get_bullet(0).unwrap();
    assert_eq!((frame[4].x, frame[4].y), (b.x, b.y));
}

#[test]
fn fire_trigger_fires_once_per_press() {
    let mut t = FireTrigger::new();
    assert!(t.sample(true));
    assert!(!t.sample(true));
    assert!(!t.sample(true));
    assert!(!t.sample(false));
    assert!(t.sample(true));
}

#[test]
fn turn_controller_accepts_only_its_state() {
    let p = CurrentState::PlayerTurn;
    let f = CurrentState::BulletInFlight;
    let a = CurrentState::AITurn;
    assert_eq!(next_turn(p, true, false, false), f);
    assert_eq!(next_turn(p, false, true, true), p);
    assert_eq!(next_turn(f, true, false, true), f);
    assert_eq!(next_turn(f, false, true, false), a);
    assert_eq!(next_turn(a, true, true, false), a);
    assert_eq!(next_turn(a, false, false, true), p);
}

#[test]
fn default_turn_state_is_player_turn() {
    assert_eq!(CurrentState::default(), CurrentState::PlayerTurn);
}
