use rat_pong::pong::{
    push_spark, trail_bands, BallReset, Marker, Paddle, PaddleSide, PlayArea, PongGame, Scores,
};

fn game() -> PongGame<(i32, i32)> {
    PongGame::new()
}

fn trail_of(g: &PongGame<(i32, i32)>) -> Vec<(i32, i32)> {
    let (a, b, c) = g.trail_layers();
    let mut all = a;
    all.extend(b);
    all.extend(c);
    all
}

#[test]
fn scores_start_at_zero() {
    let s = Scores::default();
    assert_eq!(s.left_score(), 0);
    assert_eq!(s.right_score(), 0);
}

#[test]
fn play_area_defaults_to_forty_by_twenty() {
    assert_eq!(PlayArea::default(), PlayArea { width: 40, height: 20 });
}

#[test]
fn paddle_defaults() {
    assert_eq!(Paddle::default(), Paddle { half_height: 2, horizontal_pos: 2 });
}

#[test]
fn new_game_state() {
    let g = game();
    assert_eq!(g.marker(), Marker::Block);
    assert!(g.trail_enabled());
    assert_eq!(g.scores(), Scores::default());
    assert_eq!(g.play_area(), PlayArea { width: 40, height: 20 });
    assert_eq!(g.left_paddle(), Paddle { half_height: 2, horizontal_pos: 2 });
    assert_eq!(g.right_paddle(), Paddle { half_height: 2, horizontal_pos: 2 });
    assert!(trail_of(&g).is_empty());
}

#[test]
fn set_play_area_moves_right_paddle() {
    let mut g = game();
    g.set_play_area(80, 24);
    assert_eq!(g.play_area(), PlayArea { width: 80, height: 24 });
    assert_eq!(g.right_paddle().horizontal_pos, 77);
    assert_eq!(g.left_paddle().horizontal_pos, 2);
    g.set_play_area(3, 1);
    assert_eq!(g.right_paddle().horizontal_pos, 0);
}

#[test]
fn paddles_stand_symmetric_after_resize() {
    let mut g = game();
    for width in [10u16, 11, 40, 133] {
        g.set_play_area(width, 20);
        assert_eq!(g.left_paddle().horizontal_pos, (width - 1) - g.right_paddle().horizontal_pos);
    }
}

#[test]
fn toggle_marker_twice_gives_block_back() {
    let mut g = game();
    g.toggle_marker();
    assert_eq!(g.marker(), Marker::Dot);
    g.toggle_marker();
    assert_eq!(g.marker(), Marker::Block);
}

#[test]
fn toggle_trail_off_forgets_trail() {
    let mut g = game();
    g.update_trail((1, 1));
    g.update_trail((2, 2));
    assert_eq!(trail_of(&g), vec![(1, 1), (2, 2)]);
    g.toggle_trail();
    assert!(!g.trail_enabled());
    assert!(trail_of(&g).is_empty());
    g.toggle_trail();
    assert!(g.trail_enabled());
    assert!(trail_of(&g).is_empty());
}

#[test]
fn disabled_trail_stays_empty() {
    let mut g = game();
    g.toggle_trail();
    g.update_trail((5, 5));
    assert!(trail_of(&g).is_empty());
}

#[test]
fn trail_keeps_sixteen_newest() {
    let mut g = game();
    for i in 0..20 {
        g.update_trail((i, -i));
    }
    let expected: Vec<(i32, i32)> = (4..20).map(|i| (i, -i)).collect();
    assert_eq!(trail_of(&g), expected);
}

#[test]
fn trail_bands_round_up() {
    assert_eq!(trail_bands(0), (0, 0));
    assert_eq!(trail_bands(1), (1, 1));
    assert_eq!(trail_bands(2), (1, 2));
    assert_eq!(trail_bands(3), (1, 2));
    assert_eq!(trail_bands(4), (2, 3));
    assert_eq!(trail_bands(5), (2, 4));
    assert_eq!(trail_bands(16), (6, 11));
    assert_eq!(trail_bands(usize::MAX), (usize::MAX / 3, usize::MAX - usize::MAX / 3));
}

#[test]
fn trail_bands_match_float_thirds() {
    for n in 0usize..=16 {
        let older = (n as f32 / 3.0).ceil() as usize;
        let middle = (2.0 * n as f32 / 3.0).ceil() as usize;
        assert_eq!(trail_bands(n), (older, middle));
    }
}

#[test]
fn trail_layers_split_in_thirds() {
    let mut g = game();
    for i in 0..16 {
        g.update_trail((i, 0));
    }
    let (older, middle, recent) = g.trail_layers();
    assert_eq!(older.len(), 6);
    assert_eq!(middle.len(), 5);
    assert_eq!(recent.len(), 5);
    assert_eq!(older[0], (0, 0));
    assert_eq!(middle[0], (6, 0));
    assert_eq!(recent[0], (11, 0));
    assert_eq!(recent[4], (15, 0));
}

#[test]
fn clamp_bounds_keep_paddle_inside() {
    let p = Paddle::default();
    assert_eq!(PongGame::<(i32, i32)>::clamp_bounds(p, 20), (2, 17));
    assert_eq!(PongGame::<(i32, i32)>::clamp_bounds(p, 5), (2, 2));
    assert_eq!(PongGame::<(i32, i32)>::clamp_bounds(p, 7), (2, 4));
}

#[test]
fn bottom_row_is_last_row() {
    let mut g = game();
    assert_eq!(g.bottom_row(), 19);
    g.set_play_area(30, 7);
    assert_eq!(g.bottom_row(), 6);
}

#[test]
fn paddle_facing_prefers_left() {
    let g = game();
    // both paddles start in column 2
    assert_eq!(g.paddle_facing(0), Some(PaddleSide::Left));
    assert_eq!(g.paddle_facing(2), Some(PaddleSide::Left));
    assert_eq!(g.paddle_facing(3), Some(PaddleSide::Right));
    let mut g = game();
    g.set_play_area(40, 20);
    assert_eq!(g.paddle_facing(2), Some(PaddleSide::Left));
    assert_eq!(g.paddle_facing(3), None);
    assert_eq!(g.paddle_facing(36), None);
    assert_eq!(g.paddle_facing(37), Some(PaddleSide::Right));
    assert_eq!(g.paddle_facing(u16::MAX), Some(PaddleSide::Right));
}

#[test]
fn left_miss_scores_for_right_player() {
    let mut g = game();
    g.update_trail((1, 1));
    let reset = g.score_point(PaddleSide::Left);
    assert_eq!(g.scores().right_score(), 1);
    assert_eq!(g.scores().left_score(), 0);
    assert_eq!(reset, BallReset { horizontal_pos: 20, vertical_pos: 10, horizontal_vel: -18, vertical_vel: 6 });
    assert!(trail_of(&g).is_empty());
    assert!(g.trail_enabled());
}

#[test]
fn right_miss_scores_for_left_player() {
    let mut g = game();
    g.set_play_area(33, 9);
    let reset = g.score_point(PaddleSide::Right);
    let reset2 = g.score_point(PaddleSide::Right);
    assert_eq!(g.scores().left_score(), 2);
    assert_eq!(g.scores().right_score(), 0);
    assert_eq!(reset, BallReset { horizontal_pos: 16, vertical_pos: 4, horizontal_vel: 18, vertical_vel: 6 });
    assert_eq!(reset2, reset);
}

#[test]
fn sparks_keep_eight_newest() {
    let mut sparks: Vec<u32> = Vec::new();
    for i in 0..3 {
        push_spark(&mut sparks, i);
    }
    assert_eq!(sparks, vec![0, 1, 2]);
    for i in 3..10 {
        push_spark(&mut sparks, i);
    }
    assert_eq!(sparks, vec![2, 3, 4, 5, 6, 7, 8, 9]);
    let mut many: Vec<u32> = (0..12).collect();
    push_spark(&mut many, 12);
    assert_eq!(many, vec![5, 6, 7, 8, 9, 10, 11, 12]);
}
