use touhou_engine::entity::{Enemy, Particle, Player, ENEMY_MOVE_PERIOD, PARTICLE_TTL};
use touhou_engine::physics::{Movable, Point};
use touhou_engine::spell::{Bullet, Spell};

fn pool(visible: &[bool], delay: u64) -> Spell {
    let mut s = Spell::new(Bullet::new([0, -1], 10), visible.len(), delay);
    for (i, v) in visible.iter().enumerate() {
        s.bullets[i].is_visible = *v;
        s.bullets[i].body.position = Point::new(i as i64, 500);
    }
    s
}

#[test]
fn new_pool_holds_hidden_copies() {
    let s = Spell::new(Bullet::new([0, 1], 4), 3, 50);
    assert_eq!(s.bullets.len(), 3);
    for b in &s.bullets {
        assert!(!b.is_visible);
        assert_eq!(b.body.velocity, Point::new(0, 4));
    }
    assert!(s.visible_bullets().is_empty());
}

#[test]
fn spawn_activates_the_first_hidden_slot() {
    let mut s = pool(&[false, true, false], 0);
    s.spawn(1, &Point::new(7, 8));
    assert!(s.bullets[0].is_visible);
    assert_eq!(s.bullets[0].body.position, Point::new(7, 8));
    assert!(s.bullets[1].is_visible);
    assert_eq!(s.bullets[1].body.position, Point::new(1, 500));
    assert!(!s.bullets[2].is_visible);
}

#[test]
fn spawn_with_a_full_pool_does_nothing() {
    let mut s = pool(&[true, true], 0);
    let before = s.bullets.clone();
    s.spawn(1, &Point::new(7, 8));
    assert_eq!(s.bullets, before);
}

#[test]
fn spawn_waits_for_the_cooldown() {
    let mut s = pool(&[false], 100);
    s.spawn(100, &Point::new(1, 1));
    assert!(!s.bullets[0].is_visible);
    s.spawn(1, &Point::new(1, 1));
    assert!(s.bullets[0].is_visible);
}

#[test]
fn pool_never_exceeds_its_capacity() {
    let mut s = pool(&[false, false, false], 0);
    for _ in 0..10 {
        s.spawn(1, &Point::new(0, 300));
        s.advance(None, 10, 800);
        assert_eq!(s.bullets.len(), 3);
        assert!(s.visible_bullets().len() <= 3);
    }
    assert_eq!(s.visible_bullets().len(), 3);
}

#[test]
fn advance_moves_hits_and_retires() {
    let mut s = pool(&[true, true, false, true], 0);
    s.bullets[0].body.position = Point::new(100, 115);
    s.bullets[1].body.position = Point::new(400, 5);
    s.bullets[3].body.position = Point::new(100, 300);
    let hits = s.advance(Some(Point::new(100, 100)), 10, 800);
    assert_eq!(hits, 1);
    // struck: steps to (100, 105), within 10 of the target
    assert!(!s.bullets[0].is_visible);
    assert_eq!(s.bullets[0].body.position, Point::new(100, 105));
    // crossed y < 0
    assert!(!s.bullets[1].is_visible);
    assert_eq!(s.bullets[1].body.position, Point::new(400, -5));
    // hidden slots do not move
    assert_eq!(s.bullets[2].body.position, Point::new(2, 500));
    assert!(s.bullets[3].is_visible);
    assert_eq!(s.bullets[3].body.position, Point::new(100, 290));
    assert_eq!(s.visible_bullets(), vec![s.bullets[3]]);
}

#[test]
fn advance_boundary_is_exclusive() {
    let mut s = pool(&[true, true], 0);
    s.bullets[0].body.position = Point::new(0, 35);
    s.bullets[1].body.position = Point::new(0, 34);
    let hits = s.advance(Some(Point::new(0, 0)), 25, 800);
    // slot 0 steps to distance 25: a miss; slot 1 to 24: a hit
    assert_eq!(hits, 1);
    assert!(s.bullets[0].is_visible);
    assert!(!s.bullets[1].is_visible);
}

#[test]
fn advance_retires_below_the_screen() {
    let mut s = Spell::new(Bullet::new([0, 1], 10), 1, 0);
    s.bullets[0].is_visible = true;
    s.bullets[0].body.position = Point::new(0, 795);
    assert_eq!(s.advance(None, 10, 800), 0);
    assert!(!s.bullets[0].is_visible);
    assert_eq!(s.bullets[0].body.position, Point::new(0, 805));
}

#[test]
fn bullet_collided_and_moves() {
    let mut b = Bullet::new([1, 0], 3);
    assert_eq!(b.speed(), 3);
    b.update();
    assert_eq!(b.body.position, Point::new(3, 0));
    assert!(!b.collided(&Point::new(3, 4), 4));
    assert!(b.collided(&Point::new(3, 4), 5));
}

#[test]
fn enemy_follows_its_pattern() {
    let mut e = Enemy::new(10, 4, Bullet::new([0, 1], 5), 2);
    assert_eq!(e.body.position, Point::new(350, 100));
    // the first multiplier is -1
    e.move_auto(0);
    assert_eq!(e.body.position, Point::new(346, 100));
    assert_eq!(e.head, 0);
    // the timer fires: the pattern advances to 0
    e.move_auto(ENEMY_MOVE_PERIOD + 1);
    assert_eq!(e.head, 1);
    assert_eq!(e.body.position, Point::new(346, 100));
    e.move_auto(ENEMY_MOVE_PERIOD + 1);
    assert_eq!(e.head, 2);
    assert_eq!(e.body.position, Point::new(350, 100));
}

#[test]
fn enemy_pattern_wraps_around() {
    let mut e = Enemy::new(10, 1, Bullet::new([0, 1], 5), 0);
    for _ in 0..8 {
        e.move_auto(ENEMY_MOVE_PERIOD + 1);
    }
    assert_eq!(e.head, 0);
    // each firing reads the next multiplier: 0, 1, 0, 1, 0, -1, 0, then -1
    assert_eq!(e.body.position, Point::new(350, 100));
}

#[test]
fn enemy_with_empty_pattern_stays() {
    let mut e = Enemy::new(10, 9, Bullet::new([0, 1], 5), 0);
    e.directions.clear();
    e.move_auto(ENEMY_MOVE_PERIOD + 1);
    assert_eq!(e.head, 0);
    assert_eq!(e.body.position, Point::new(350, 100));
}

#[test]
fn player_steers_by_held_keys() {
    let mut p = Player::new(3, Bullet::new([0, -1], 10), 1);
    p.steer(touhou_engine::entity::Keys { up: true, down: false, left: true, right: false });
    assert_eq!(p.body.position, Point::new(345, 345));
    p.steer(touhou_engine::entity::Keys { up: true, down: true, left: false, right: true });
    assert_eq!(p.body.position, Point::new(350, 345));
}

#[test]
fn enemy_bullets_damage_the_player() {
    let mut e = Enemy::new(10, 0, Bullet::new([0, 1], 10), 1);
    e.spell.bullets[0].is_visible = true;
    e.spell.bullets[0].body.position = Point::new(350, 330);
    let mut player = Some(Player::new(3, Bullet::new([0, -1], 10), 1));
    let hits = e.update(0, &mut player, 800);
    assert_eq!(hits, 1);
    assert_eq!(player.as_ref().unwrap().health.health, 2);
    assert!(!e.spell.bullets[0].is_visible);
}

#[test]
fn particle_moves_then_expires() {
    let mut p = Particle::new(PARTICLE_TTL, Point::new(10, 10), [-1, 0], 5);
    assert!(p.bullet.is_visible);
    p.update(PARTICLE_TTL);
    assert!(p.bullet.is_visible);
    assert_eq!(p.bullet.body.position, Point::new(5, 10));
    p.update(1);
    assert!(!p.bullet.is_visible);
    assert_eq!(p.bullet.body.position, Point::new(5, 10));
}
