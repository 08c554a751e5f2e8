use obstacle_run::collision::overlaps;
use obstacle_run::body::Body;
use obstacle_run::obstacle::{
    prune_obstacles, Obstacle, ObstacleKind,
};

#[test]
fn from_rolls_builds_exact_geometry() {
    let v = Obstacle::from_rolls(ObstacleKind::Vertical, 800, 600, 150, 70);
    assert_eq!(v.pos_x, 800_000);
    assert_eq!(v.pos_y, 70_000);
    assert_eq!(v.width, 50_000);
    assert_eq!(v.height, 150_000);

    let h = Obstacle::from_rolls(ObstacleKind::Horizontal, 800, 600, 120, 200);
    assert_eq!(h.pos_x, 800_000);
    assert_eq!(h.pos_y, 200_000);
    assert_eq!(h.width, 120_000);
    assert_eq!(h.height, 50_000);
}

#[test]
fn spawned_obstacles_respect_margins() {
    macroquad::rand::srand(7);
    let mut heights = Vec::new();
    for _ in 0..50 {
        let o = Obstacle::new(ObstacleKind::Vertical, 800, 600);
        assert_eq!(o.pos_x, 800_000);
        assert_eq!(o.width, 50_000);
        assert!(100_000 <= o.height && o.height < 300_000);
        assert!(50_000 <= o.pos_y);
        assert!(o.pos_y + o.height < 400_000);
        heights.push(o.height);
    }
    // the generator really varies the size
    assert!(heights.iter().any(|h| *h != heights[0]));

    for _ in 0..50 {
        let o = Obstacle::new(ObstacleKind::Horizontal, 800, 600);
        assert_eq!(o.pos_x, 800_000);
        assert_eq!(o.height, 50_000);
        assert!(50_000 <= o.width && o.width < 300_000);
        assert!(50_000 <= o.pos_y);
        assert!(o.pos_y + o.height < 400_000);
    }
}

#[test]
fn advance_moves_left_exactly() {
    let mut o = Obstacle::from_rolls(ObstacleKind::Vertical, 800, 600, 150, 70);
    o.advance(16, 200);
    assert_eq!(o.pos_x, 800_000 - 200 * 16);
    assert_eq!(o.pos_y, 70_000);
}

#[test]
fn prune_keeps_exactly_on_screen_obstacles() {
    let make = |x: i64| Obstacle {
        kind: ObstacleKind::Vertical,
        pos_x: x,
        pos_y: 100_000,
        width: 50_000,
        height: 100_000,
    };
    // right edges one milli-pixel right of, exactly on, and one left of
    // the border
    let mut obs = vec![make(-49_999), make(-50_000), make(-50_001), make(600_000)];
    prune_obstacles(&mut obs);
    assert_eq!(obs.len(), 2);
    assert_eq!(obs[0].pos_x, -49_999);
    assert_eq!(obs[1].pos_x, 600_000);
}

#[test]
fn collision_scenario_at_floor() {
    // floor at 750 px: body at (100, floor); obstacle hitbox spans
    // 90..130 px by floor-40..floor+20 px
    let body = Body {
        pos_x: 100_000,
        pos_y: 750_000,
        vel_x: 0,
        vel_y: 0,
        grounded: true,
    };
    let ob = Obstacle {
        kind: ObstacleKind::Vertical,
        pos_x: 90_000,
        pos_y: 694_000,
        width: 40_000,
        height: 44_000,
    };
    assert!(overlaps(&body, &ob));
    let far = Obstacle { pos_x: 500_000, ..ob };
    assert!(!overlaps(&body, &far));
}

#[test]
fn touching_rectangles_do_not_collide() {
    // obstacle hitbox starts exactly at the body hitbox's right edge
    let body = Body {
        pos_x: 100_000,
        pos_y: 750_000,
        vel_x: 0,
        vel_y: 0,
        grounded: true,
    };
    let ob = Obstacle {
        kind: ObstacleKind::Vertical,
        pos_x: 115_000,
        pos_y: 694_000,
        width: 40_000,
        height: 44_000,
    };
    assert!(!overlaps(&body, &ob));
}
