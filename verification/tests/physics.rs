use obstacle_run::body::Body;

const CEIL: i64 = 50_000;
const FLOOR: i64 = 550_000;

#[test]
fn gravity_settles_body_on_floor() {
    let mut b = Body::new(100_000, 300_000);
    let mut settled_at = None;
    for step in 0..10_000 {
        b.update(16, false, CEIL, FLOOR);
        if b.grounded && b.vel_y == 0 && b.pos_y == FLOOR {
            settled_at = Some(step);
            break;
        }
    }
    assert!(settled_at.is_some(), "body never settled");
    // and it stays settled
    for _ in 0..100 {
        b.update(16, false, CEIL, FLOOR);
        assert!(b.grounded);
        assert_eq!(b.vel_y, 0);
        assert_eq!(b.pos_y, FLOOR);
    }
}

#[test]
fn position_always_clamped() {
    let mut b = Body::new(100_000, 300_000);
    let dts: [i64; 6] = [0, 1, 16, 33, 1000, 100_000];
    for round in 0..200 {
        let dt = dts[round % dts.len()];
        let jump = round % 3 == 0;
        b.update(dt, jump, CEIL, FLOOR);
        assert!(CEIL <= b.pos_y && b.pos_y <= FLOOR);
    }
}

#[test]
fn jump_impulse_from_ground() {
    let mut b = Body::new(100_000, FLOOR);
    b.update(16, false, CEIL, FLOOR);
    assert!(b.grounded);
    b.update(0, true, CEIL, FLOOR);
    assert_eq!(b.vel_y, -800);
    assert!(!b.grounded);
}

#[test]
fn jump_held_in_air_caps_velocity() {
    let mut b = Body::new(100_000, 300_000);
    assert!(!b.grounded);
    b.update(0, true, CEIL, FLOOR);
    assert_eq!(b.vel_y, -350);
}

#[test]
fn integration_is_exact() {
    // from rest: gravity adds dt px/s, position moves vel * dt milli-px
    let mut b = Body::new(100_000, 300_000);
    b.update(100, false, CEIL, FLOOR);
    assert_eq!(b.vel_y, 100);
    assert_eq!(b.pos_y, 300_000 + 100 * 100);
    assert_eq!(b.pos_x, 100_000);
    assert!(!b.grounded);
}

#[test]
fn ceiling_stops_ascent() {
    let mut b = Body::new(100_000, 60_000);
    // airborne jump hold sets -350 px/s; with dt 100 ms the body would
    // pass the ceiling, so it snaps there with zero velocity
    b.update(100, true, CEIL, FLOOR);
    assert_eq!(b.pos_y, CEIL);
    assert_eq!(b.vel_y, 0);
}
