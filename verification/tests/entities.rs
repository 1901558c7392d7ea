use multiplayer_game::entity::{
    Action, BulletState, PlayerState, BULLET_LIFETIME, PLAYER_RADIUS_SIZE, STARTING_HEALTH,
};
use multiplayer_game::geometry::{Angle, Vec2};

fn bullet_at(x: i64, y: i64) -> BulletState {
    BulletState {
        position: Vec2 { x, y },
        velocity: Vec2 { x: 0, y: 0 },
        lifetime: BULLET_LIFETIME,
        time: 0,
        index: 0,
    }
}

#[test]
fn new_player_is_at_rest_and_in_full_health() {
    let p = PlayerState::new("A", Vec2 { x: 5, y: 6 });
    assert_eq!(p.name, "A");
    assert_eq!(p.position, Vec2 { x: 5, y: 6 });
    assert_eq!(p.velocity, Vec2 { x: 0, y: 0 });
    assert_eq!(p.angle, Angle::zero());
    assert_eq!(p.health, STARTING_HEALTH);
    assert_eq!(p.health, 100);
    assert!(p.alive);
}

#[test]
fn player_clone_is_equal() {
    let mut p = PlayerState::new("A", Vec2 { x: 5, y: 6 });
    p.velocity = Vec2 { x: 1, y: 2 };
    assert_eq!(p.clone(), p);
}

#[test]
fn player_update_integrates_linearly() {
    let mut p = PlayerState::new("A", Vec2 { x: 1_000_000, y: -1_000_000 });
    p.velocity = Vec2 { x: 30_000, y: -10_000 };
    let action = p.update(35, &Vec::new());
    assert_eq!(action, None);
    assert_eq!(p.position, Vec2 { x: 2_050_000, y: -1_350_000 });
    assert_eq!(p.velocity, Vec2 { x: 30_000, y: -10_000 });
    assert_eq!(p.name, "A");
    assert_eq!(p.health, 100);
    assert!(p.alive);
}

#[test]
fn player_update_with_no_time_stays() {
    let mut p = PlayerState::new("A", Vec2 { x: 7, y: 8 });
    p.velocity = Vec2 { x: 30_000, y: -10_000 };
    assert_eq!(p.update(0, &Vec::new()), None);
    assert_eq!(p.position, Vec2 { x: 7, y: 8 });
}

#[test]
fn player_update_goes_back_with_negative_time() {
    let mut p = PlayerState::new("A", Vec2 { x: 0, y: 0 });
    p.velocity = Vec2 { x: 10, y: 20 };
    assert_eq!(p.update(-3, &Vec::new()), None);
    assert_eq!(p.position, Vec2 { x: -30, y: -60 });
}

#[test]
fn player_dies_of_a_bullet_inside_the_radius() {
    let mut p = PlayerState::new("A", Vec2 { x: 0, y: 0 });
    let bullets = vec![bullet_at(PLAYER_RADIUS_SIZE - 1, 0)];
    assert_eq!(p.update(35, &bullets), Some(Action::DeletePlayer("A".to_string())));
}

#[test]
fn player_survives_a_bullet_exactly_at_the_radius() {
    let mut p = PlayerState::new("A", Vec2 { x: 0, y: 0 });
    let bullets = vec![bullet_at(PLAYER_RADIUS_SIZE, 0), bullet_at(0, -PLAYER_RADIUS_SIZE)];
    assert_eq!(p.update(35, &bullets), None);
}

#[test]
fn player_survives_a_bullet_on_the_diagonal_circle() {
    let mut p = PlayerState::new("A", Vec2 { x: 0, y: 0 });
    let bullets = vec![bullet_at(6_000_000, 8_000_000)];
    assert_eq!(p.update(35, &bullets), None);
    let closer = vec![bullet_at(6_000_000, 7_999_999)];
    assert_eq!(p.update(35, &closer), Some(Action::DeletePlayer("A".to_string())));
}

#[test]
fn player_is_tested_where_it_stands_after_moving() {
    let mut p = PlayerState::new("A", Vec2 { x: 0, y: 0 });
    p.velocity = Vec2 { x: 1_000_000, y: 0 };
    let bullets = vec![bullet_at(30_000_000, 0)];
    assert_eq!(p.update(10, &bullets), None);
    assert_eq!(p.position, Vec2 { x: 10_000_000, y: 0 });
    assert_eq!(p.update(10, &bullets), None);
    assert_eq!(p.position, Vec2 { x: 20_000_000, y: 0 });
    assert_eq!(p.update(1, &bullets), Some(Action::DeletePlayer("A".to_string())));
    assert_eq!(p.position, Vec2 { x: 21_000_000, y: 0 });
}

#[test]
fn player_dies_once_whichever_of_several_bullets_hits() {
    let mut p = PlayerState::new("A", Vec2 { x: 0, y: 0 });
    let bullets = vec![bullet_at(50_000_000, 0), bullet_at(1, 1), bullet_at(2, 2)];
    assert_eq!(p.update(0, &bullets), Some(Action::DeletePlayer("A".to_string())));
}

#[test]
fn bullet_update_moves_and_ages() {
    let mut b = BulletState {
        position: Vec2 { x: 11_000_000, y: 11_000_000 },
        velocity: Vec2 { x: 20_000, y: 20_000 },
        lifetime: BULLET_LIFETIME,
        time: 0,
        index: 3,
    };
    assert_eq!(b.update(35), None);
    assert_eq!(b.position, Vec2 { x: 11_700_000, y: 11_700_000 });
    assert_eq!(b.velocity, Vec2 { x: 20_000, y: 20_000 });
    assert_eq!(b.time, 35);
    assert_eq!(b.lifetime, 10_000);
    assert_eq!(b.index, 3);
}

#[test]
fn bullet_expires_when_its_age_reaches_its_lifetime() {
    let mut b = bullet_at(0, 0);
    b.index = 4;
    b.time = BULLET_LIFETIME - 36;
    assert_eq!(b.update(35), None);
    assert_eq!(b.time, BULLET_LIFETIME - 1);
    assert_eq!(b.update(1), Some(Action::DeleteBullet(4)));
    assert_eq!(b.time, BULLET_LIFETIME);
}

#[test]
fn bullet_expires_when_its_age_passes_its_lifetime() {
    let mut b = bullet_at(0, 0);
    b.time = BULLET_LIFETIME - 1;
    assert_eq!(b.update(35), Some(Action::DeleteBullet(0)));
    assert_eq!(b.time, BULLET_LIFETIME + 34);
}

#[test]
fn bullet_age_saturates() {
    let mut b = bullet_at(0, 0);
    b.time = i64::MAX;
    b.lifetime = i64::MAX;
    assert_eq!(b.update(35), Some(Action::DeleteBullet(0)));
    assert_eq!(b.time, i64::MAX);
}

#[test]
fn action_clone_is_equal() {
    let a = Action::DeletePlayer("A".to_string());
    assert_eq!(a.clone(), a);
    let b = Action::DeleteBullet(7);
    assert_eq!(b.clone(), b);
    assert_ne!(a, b);
}
