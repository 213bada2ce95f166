use macronoid::ball::{Ball, Status};
use macronoid::block::Block;
use macronoid::geometry::{classify, hit_test, overlaps, Circle, HitBy, Rect};
use macronoid::paddle::{Paddle, PADDLE_MAX_X};
use macronoid::Vec2;

fn ball_at(x: i64, y: i64, vx: i64, vy: i64) -> Ball {
    Ball { pos: Vec2 { x, y }, vel: Vec2 { x: vx, y: vy }, stuck: false }
}

#[test]
fn bounce_x_twice_restores_velocity() {
    for &(vx, vy) in &[(0, 0), (123, -7), (-100000, 100000), (i64::MAX, -i64::MAX)] {
        let start = ball_at(5, 6, vx, vy);
        let mut b = start;
        b.bounce_x();
        assert_eq!(b.vel, Vec2 { x: -vx, y: vy });
        b.bounce_x();
        assert_eq!(b, start);
    }
}

#[test]
fn bounce_y_twice_restores_velocity() {
    let start = ball_at(1, 2, 300, -400);
    let mut b = start;
    b.bounce_y();
    assert_eq!(b.vel, Vec2 { x: 300, y: 400 });
    b.bounce_y();
    assert_eq!(b, start);
}

#[test]
fn block_is_hit_only_once() {
    let mut block = Block::new(0, 0);
    let ball = ball_at(20000, 15000, 0, 0);
    assert_eq!(block.check_hit(&ball), Some(HitBy::X));
    assert!(!block.visible);
    assert_eq!(block.check_hit(&ball), None);
    let elsewhere = ball_at(1000, 1000, 0, 0);
    assert_eq!(block.check_hit(&elsewhere), None);
    assert!(!block.visible);
}

#[test]
fn block_missed_stays_in_play() {
    let mut block = Block::new(40000, 30000);
    let ball = ball_at(400000, 300000, 0, 0);
    assert_eq!(block.check_hit(&ball), None);
    assert!(block.visible);
}

#[test]
fn paddle_starts_at_bottom_centre() {
    let p = Paddle::new();
    assert_eq!(p.pos, Vec2 { x: 360000, y: 590000 });
    assert_eq!(p.direction, 0);
}

#[test]
fn paddle_moves_by_speed_times_frame_time() {
    let mut p = Paddle::new();
    p.move_right(16000);
    assert_eq!(p.pos.x, 361600);
    assert_eq!(p.direction, 1);
    p.move_left(32000);
    assert_eq!(p.pos.x, 358400);
    assert_eq!(p.direction, -1);
    p.stop();
    assert_eq!(p.pos.x, 358400);
    assert_eq!(p.direction, 0);
}

#[test]
fn paddle_stays_on_screen() {
    let mut p = Paddle::new();
    for _ in 0..100 {
        p.move_right(1_000_000);
        assert!(0 <= p.pos.x && p.pos.x <= 720000);
    }
    assert_eq!(p.pos.x, PADDLE_MAX_X);
    for _ in 0..100 {
        p.move_left(u32::MAX);
        assert!(0 <= p.pos.x && p.pos.x <= 720000);
    }
    assert_eq!(p.pos.x, 0);
    let mut q = Paddle { pos: Vec2 { x: -50, y: 590000 }, direction: 0 };
    q.move_right(0);
    assert_eq!(q.pos.x, 0);
}

#[test]
fn update_reflects_off_left_wall() {
    let mut b = ball_at(19999, 300000, -5000, 0);
    assert_eq!(b.update(0), Status::Running);
    assert_eq!(b.vel.x, 5000);
}

#[test]
fn update_reflects_off_right_wall() {
    let mut b = ball_at(780001, 300000, 5000, 7);
    assert_eq!(b.update(0), Status::Running);
    assert_eq!(b.vel, Vec2 { x: -5000, y: 7 });
}

#[test]
fn update_does_not_reflect_on_wall_boundary() {
    let mut b = ball_at(20000, 20000, -5000, 6000);
    b.update(0);
    assert_eq!(b.vel, Vec2 { x: -5000, y: 6000 });
    let mut c = ball_at(780000, 300000, 5000, 6000);
    c.update(0);
    assert_eq!(c.vel, Vec2 { x: 5000, y: 6000 });
}

#[test]
fn update_reflects_off_top_wall() {
    let mut b = ball_at(400000, 19999, 0, 100000);
    assert_eq!(b.update(0), Status::Running);
    assert_eq!(b.vel.y, -100000);
}

#[test]
fn update_moves_ball() {
    let mut b = ball_at(400000, 300000, 100000, 100000);
    assert_eq!(b.update(10000), Status::Running);
    assert_eq!(b.pos, Vec2 { x: 401000, y: 299000 });
    let mut c = ball_at(400000, 300000, -100000, -3);
    c.update(10000);
    assert_eq!(c.pos, Vec2 { x: 399000, y: 300000 });
}

#[test]
fn ball_below_screen_ends_game() {
    for &(vx, vy) in &[(0, 0), (100000, 100000), (-3, -100000)] {
        let mut b = ball_at(400000, 601000, vx, vy);
        assert_eq!(b.update(16000), Status::Over);
        assert_eq!(b.vel.y, 0);
        assert_eq!(b.pos, Vec2 { x: 400000, y: 601000 });
    }
    let mut edge = ball_at(400000, 600000, 0, -100000);
    assert_eq!(edge.update(16000), Status::Running);
}

#[test]
fn stick_to_rides_over_paddle() {
    let mut b = Ball::new();
    assert!(b.stuck);
    b.stick_to(&Paddle::new());
    assert_eq!(b.pos, Vec2 { x: 400000, y: 569000 });
}

#[test]
fn circle_inside_rectangle_overlaps() {
    let r = Rect { x: 0, y: 0, w: 100, h: 100 };
    let c = Circle { x: 50, y: 50, r: 10 };
    assert!(overlaps(&c, &r));
    assert_eq!(hit_test(&c, &r), Some(HitBy::X));
}

#[test]
fn circle_touching_edge_does_not_overlap() {
    let r = Rect { x: 0, y: 0, w: 100, h: 100 };
    assert!(!overlaps(&Circle { x: 110, y: 50, r: 10 }, &r));
    assert!(!overlaps(&Circle { x: 50, y: -10, r: 10 }, &r));
    assert!(overlaps(&Circle { x: 109, y: 50, r: 10 }, &r));
    assert_eq!(hit_test(&Circle { x: 110, y: 50, r: 10 }, &r), None);
}

#[test]
fn circle_touching_corner_is_xy() {
    let r = Rect { x: 0, y: 0, w: 100, h: 100 };
    let c = Circle { x: 105, y: 105, r: 10 };
    assert!(overlaps(&c, &r));
    assert_eq!(classify(&c, &r), HitBy::XY);
    assert_eq!(hit_test(&c, &r), Some(HitBy::XY));
    assert!(!overlaps(&Circle { x: 108, y: 108, r: 10 }, &r));
}

#[test]
fn circle_at_side_is_y() {
    let r = Rect { x: 0, y: 0, w: 100, h: 100 };
    assert_eq!(hit_test(&Circle { x: -5, y: 50, r: 10 }, &r), Some(HitBy::Y));
    assert_eq!(hit_test(&Circle { x: 0, y: 50, r: 10 }, &r), Some(HitBy::Y));
}

#[test]
fn paddle_classifies_side_hit() {
    let p = Paddle::new();
    let b = ball_at(340001, 595000, 0, 0);
    assert_eq!(p.check_hit(&b), Some(HitBy::Y));
    let top = ball_at(400000, 575000, 0, 0);
    assert_eq!(p.check_hit(&top), Some(HitBy::X));
}
