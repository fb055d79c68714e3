use tank_duel::entities::BulletState;
use tank_duel::entities::EntityError;
use tank_duel::entities::Registry;
use tank_duel::entities::Side;
use tank_duel::HALF_PI_MILLIRAD;

#[test]
fn create_tank_returns_linked_pair() {
    let mut reg = Registry::new();
    let (tank_id, gun_id) = reg.create_tank(Side::Player, 12000, 785);
    assert_eq!((tank_id, gun_id), (0, 0));
    let tank = reg.get_tank(tank_id).unwrap();
    assert_eq!(tank.side, Side::Player);
    assert_eq!(tank.x, 12000);
    assert_eq!(tank.gun_angle, 785);
    assert_eq!(tank.gun, gun_id);
    let gun = reg.get_gun(gun_id).unwrap();
    assert_eq!(gun.owner, tank_id);
    assert_eq!(gun.rotation, 785);
}

#[test]
fn create_tank_clamps_requested_angle() {
    let mut reg = Registry::new();
    let (high, _) = reg.create_tank(Side::Ai, 72000, 2356);
    assert_eq!(reg.get_tank(high).unwrap().gun_angle, HALF_PI_MILLIRAD);
    let (low, _) = reg.create_tank(Side::Ai, 72000, -40);
    assert_eq!(reg.get_tank(low).unwrap().gun_angle, 0);
}

#[test]
fn create_bullet_starts_flying() {
    let mut reg = Registry::new();
    let id = reg.create_bullet(15535, 11035, 7070, 7070);
    let b = reg.get_bullet(id).unwrap();
    assert_eq!(b.state, BulletState::Flying);
    assert_eq!((b.x, b.y, b.vx, b.vy), (15535, 11035, 7070, 7070));
}

#[test]
fn lookups_of_unknown_ids_fail_not_found() {
    let mut reg = Registry::new();
    assert_eq!(reg.get_tank(0), Err(EntityError::NotFound));
    assert_eq!(reg.get_gun(0), Err(EntityError::NotFound));
    assert_eq!(reg.get_bullet(0), Err(EntityError::NotFound));
    reg.create_tank(Side::Player, 12000, 785);
    assert!(reg.get_tank(0).is_ok());
    assert_eq!(reg.get_tank(1), Err(EntityError::NotFound));
    assert_eq!(reg.get_bullet(0), Err(EntityError::NotFound));
}

#[test]
fn set_gun_angle_writes_tank_and_gun_together() {
    let mut reg = Registry::new();
    let (tank_id, gun_id) = reg.create_tank(Side::Player, 12000, 785);
    reg.set_gun_angle(tank_id, 805);
    assert_eq!(reg.get_tank(tank_id).unwrap().gun_angle, 805);
    assert_eq!(reg.get_gun(gun_id).unwrap().rotation, 805);
}
