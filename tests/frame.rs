use macronoid::ball::{Ball, Status};
use macronoid::block::Block;
use macronoid::game::{block_grid, Game, Input, GRID_COLUMNS, GRID_ROWS};
use macronoid::paddle::Paddle;
use macronoid::Vec2;

const IDLE: Input = Input { left: false, right: false, launch: false };

fn game_without_blocks(ball: Ball) -> Game {
    Game { paddle: Paddle::new(), ball, blocks: Vec::new() }
}

#[test]
fn launch_from_paddle() {
    let mut g = Game::new();
    assert_eq!(g.paddle.pos, Vec2 { x: 360000, y: 590000 });
    assert!(g.ball.stuck);
    let status = g.step(Input { left: false, right: false, launch: true }, 16000);
    assert_eq!(status, Status::Running);
    assert_eq!(g.ball.vel, Vec2 { x: 0, y: 100000 });
    assert!(!g.ball.stuck);
    assert_eq!(g.ball.pos, Vec2 { x: 400000, y: 567400 });
}

#[test]
fn launch_while_moving_drifts() {
    let mut g = Game::new();
    g.step(Input { left: true, right: false, launch: true }, 0);
    assert_eq!(g.ball.vel, Vec2 { x: -100000, y: 100000 });
}

#[test]
fn stuck_ball_follows_paddle() {
    let mut g = Game::new();
    g.step(Input { left: false, right: true, launch: false }, 100000);
    assert_eq!(g.paddle.pos.x, 370000);
    assert_eq!(g.paddle.direction, 1);
    assert!(g.ball.stuck);
    assert_eq!(g.ball.pos, Vec2 { x: 410000, y: 569000 });
    g.step(IDLE, 100000);
    assert_eq!(g.paddle.direction, 0);
    assert_eq!(g.paddle.pos.x, 370000);
}

#[test]
fn right_takes_precedence_over_left() {
    let mut g = Game::new();
    g.step(Input { left: true, right: true, launch: false }, 10000);
    assert_eq!(g.paddle.direction, 1);
    assert_eq!(g.paddle.pos.x, 361000);
}

#[test]
fn standard_grid_has_hundred_blocks() {
    let g = Game::new();
    assert_eq!(g.blocks.len(), 100);
    let mut i = 0;
    for c in 0..20i64 {
        for r in 0..5i64 {
            let b = g.blocks[i];
            assert!(b.visible);
            assert_eq!(b.pos, Vec2 { x: c * 40000, y: r * 30000 });
            i += 1;
        }
    }
    assert_eq!(g.blocks[0].pos, Vec2 { x: 0, y: 0 });
    assert_eq!(GRID_COLUMNS * GRID_ROWS, 100);
}

#[test]
fn other_grid_sizes() {
    assert!(block_grid(0, 5).is_empty());
    assert!(block_grid(3, 0).is_empty());
    let v = block_grid(3, 2);
    assert_eq!(v.len(), 6);
    assert_eq!(v[3], Block { pos: Vec2 { x: 40000, y: 30000 }, visible: true });
    assert_eq!(v[4], Block { pos: Vec2 { x: 80000, y: 0 }, visible: true });
    let g = Game::with_grid(2, 1);
    assert_eq!(g.blocks.len(), 2);
}

#[test]
fn falling_ball_ends_game() {
    let mut g = game_without_blocks(Ball { pos: Vec2 { x: 100000, y: 601000 }, vel: Vec2 { x: 5, y: -100000 }, stuck: false });
    assert_eq!(g.step(IDLE, 16000), Status::Over);
    assert_eq!(g.ball.vel.y, 0);
}

#[test]
fn paddle_top_hit_reflects_and_boosts() {
    let ball = Ball { pos: Vec2 { x: 400000, y: 575000 }, vel: Vec2 { x: 0, y: -100000 }, stuck: false };
    let mut g = game_without_blocks(ball);
    assert_eq!(g.step(Input { left: false, right: true, launch: false }, 10000), Status::Running);
    assert_eq!(g.ball.vel, Vec2 { x: 100000, y: 100000 });
    assert_eq!(g.ball.pos, Vec2 { x: 401000, y: 574000 });
}

#[test]
fn paddle_corner_hit_reflects_both_and_boosts() {
    let ball = Ball { pos: Vec2 { x: 350000, y: 585000 }, vel: Vec2 { x: 50000, y: -100000 }, stuck: false };
    let mut g = game_without_blocks(ball);
    g.step(Input { left: true, right: false, launch: false }, 0);
    assert_eq!(g.ball.vel, Vec2 { x: -150000, y: 100000 });
}

#[test]
fn paddle_side_hit_is_ignored() {
    let ball = Ball { pos: Vec2 { x: 340001, y: 595000 }, vel: Vec2 { x: 100000, y: -50000 }, stuck: false };
    let mut g = game_without_blocks(ball);
    assert_eq!(g.step(IDLE, 0), Status::Running);
    assert_eq!(g.ball.vel, Vec2 { x: 100000, y: -50000 });
}

#[test]
fn block_hit_in_frame_reflects_and_removes() {
    let mut g = Game::new();
    g.ball = Ball { pos: Vec2 { x: 60000, y: 165000 }, vel: Vec2 { x: 0, y: 100000 }, stuck: false };
    g.step(IDLE, 0);
    assert_eq!(g.ball.vel, Vec2 { x: 0, y: -100000 });
    let gone: Vec<usize> = (0..g.blocks.len()).filter(|&i| !g.blocks[i].visible).collect();
    assert_eq!(gone, vec![9]);
    g.step(IDLE, 0);
    assert_eq!(g.ball.vel, Vec2 { x: 0, y: -100000 });
}

#[test]
fn two_blocks_hit_in_one_frame_cancel() {
    let mut g = Game::new();
    g.ball = Ball { pos: Vec2 { x: 40000, y: 165000 }, vel: Vec2 { x: 0, y: 100000 }, stuck: false };
    g.step(IDLE, 0);
    assert_eq!(g.ball.vel, Vec2 { x: 0, y: 100000 });
    assert!(!g.blocks[4].visible);
    assert!(!g.blocks[9].visible);
}
