use touhou_engine::health::Health;
use touhou_engine::physics::{add_clamped, Movable, Point, Rigidbody};
use touhou_engine::timer::{Timer, NANOS_PER_SEC};

const MS: u64 = NANOS_PER_SEC / 1000;

#[test]
fn timer_fires_only_past_its_period() {
    let mut t = Timer::new(100 * MS);
    assert!(!t.ready(100 * MS));
    assert_eq!(t.time, 100 * MS);
    assert!(t.ready(1));
    assert_eq!(t.time, 0);
    assert_eq!(t.delay, 100 * MS);
}

#[test]
fn timer_chunked_deltas_fire_like_their_sum() {
    let mut chunked = Timer::new(100 * MS);
    let fired = [chunked.ready(60 * MS), chunked.ready(60 * MS)];
    assert_eq!(fired, [false, true]);

    let mut whole = Timer::new(100 * MS);
    assert!(whole.ready(120 * MS));
    assert_eq!(chunked, whole);
}

#[test]
fn timer_resets_instead_of_carrying_the_remainder() {
    let mut t = Timer::new(100 * MS);
    let mut count = 0;
    for _ in 0..3 {
        if t.ready(70 * MS) {
            count += 1;
        }
    }
    assert_eq!(count, 1);
    assert_eq!(t.time, 70 * MS);
}

#[test]
fn timer_with_zero_period_fires_on_any_time() {
    let mut t = Timer::new(0);
    assert!(!t.ready(0));
    assert!(t.ready(1));
}

#[test]
fn health_damage_saturates_at_zero() {
    let mut h = Health::new(3);
    assert_eq!(h.take_damage(1), 2);
    assert!(h.is_alive());
    assert_eq!(h.take_damage(5), 0);
    assert!(!h.is_alive());
    assert_eq!(h.take_damage(1), 0);
    assert_eq!(h.max_health, 3);
}

#[test]
fn health_never_rises_over_a_sequence_of_damages() {
    let mut h = Health::new(10);
    let mut last = h.health;
    for d in [0u32, 3, 1, 0, 4, 7, 2] {
        let now = h.take_damage(d);
        assert!(now <= last);
        last = now;
    }
    assert_eq!(last, 0);
}

#[test]
fn clamped_addition_saturates() {
    assert_eq!(add_clamped(2, 3), 5);
    assert_eq!(add_clamped(i64::MAX, 1), i64::MAX);
    assert_eq!(add_clamped(i64::MIN, -1), i64::MIN);
    assert_eq!(add_clamped(-5, 3), -2);
}

#[test]
fn point_within_is_exclusive_at_the_radius() {
    let a = Point::new(0, 0);
    let b = Point::new(3, 4);
    assert!(!a.within(&b, 5));
    assert!(a.within(&b, 6));
    assert!(a.within(&a, 1));
    assert!(!a.within(&a, 0));
    let far = Point::new(i64::MAX, i64::MIN);
    assert!(!a.within(&far, u32::MAX));
}

#[test]
fn point_scaled_and_translated() {
    let v = Point::scaled([0, -1], 7);
    assert_eq!(v, Point::new(0, -7));
    assert_eq!(Point::new(10, 10).translate(v), Point::new(10, 3));
}

#[test]
fn rigidbody_moves_and_reports_speed() {
    let mut body = Rigidbody { position: Point::new(1, 2), velocity: Point::new(-7, 3) };
    assert_eq!(body.speed(), 7);
    assert_eq!(*body.velocity(), Point::new(-7, 3));
    body.move_by(Point::new(4, -1));
    assert_eq!(body.x(), 5);
    assert_eq!(body.y(), 1);
    body.set_position(-3, 9);
    assert_eq!(*body.position(), Point::new(-3, 9));
    assert_eq!(body.velocity, Point::new(-7, 3));
    let slow = Rigidbody { position: Point::new(0, 0), velocity: Point::new(2, -6) };
    assert_eq!(slow.speed(), 6);
}
