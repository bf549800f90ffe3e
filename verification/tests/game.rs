use pong::game_manager::model::{Key, Side};
use pong::game_manager::schedule::{after, Callback, Schedule, FRAME_DELAY};
use pong::game_manager::{key_from_name, GameManager};

fn state(gm: &GameManager) -> (i64, i64, i64, i64) {
    (gm.ball().get_x(), gm.ball().get_y(), gm.ball().get_velo_x(), gm.ball().get_velo_y())
}

#[test]
fn the_opening_layout() {
    let gm = GameManager::new(800, 600);
    assert_eq!(gm.win_width(), 800_000);
    assert_eq!(gm.win_height(), 600_000);
    assert_eq!(state(&gm), (400_000, 300_000, -600, 0));
    assert_eq!(gm.ball().get_radius(), 6_000);
    assert_eq!(
        (gm.p1().get_x(), gm.p1().get_y(), gm.p1().get_width(), gm.p1().get_height()),
        (6_000, 300_000, 12_000, 120_000)
    );
    assert_eq!(
        (gm.p2().get_x(), gm.p2().get_y(), gm.p2().get_width(), gm.p2().get_height()),
        (794_000, 300_000, 12_000, 120_000)
    );
    assert_eq!((gm.p1().get_dir(), gm.p2().get_dir()), (0, 0));
    assert_eq!((gm.p1_score(), gm.p2_score()), (0, 0));
    assert_eq!(gm.p2_target(), 0);
    assert!(!gm.is_running());
}

#[test]
fn the_opening_layout_is_scaled_to_the_shorter_side() {
    let gm = GameManager::new(1920, 1080);
    assert_eq!(gm.ball().get_radius(), 10_800);
    assert_eq!(state(&gm), (960_000, 540_000, -600, 0));
    assert_eq!(
        (gm.p1().get_x(), gm.p1().get_y(), gm.p1().get_width(), gm.p1().get_height()),
        (10_800, 540_000, 21_600, 216_000)
    );
    assert_eq!(gm.p2().get_x(), 1_909_200);

    let tall = GameManager::new(1080, 1920);
    assert_eq!(tall.p1().get_width(), 21_600);
    assert_eq!(tall.p2().get_x(), 1_069_200);
    assert_eq!(tall.p2().get_y(), 960_000);
}

#[test]
fn the_smallest_and_the_largest_arena() {
    let tiny = GameManager::new(1, 1);
    assert_eq!(state(&tiny), (500, 500, -600, 0));
    assert_eq!((tiny.p1().get_width(), tiny.p1().get_height()), (20, 200));
    assert_eq!((tiny.p1().get_x(), tiny.p2().get_x()), (10, 990));
    assert_eq!(tiny.ball().get_radius(), 10);

    let huge = GameManager::new(u32::MAX, u32::MAX);
    assert_eq!(huge.win_width(), 4_294_967_295_000);
    assert_eq!(state(&huge), (2_147_483_647_500, 2_147_483_647_500, -600, 0));
    assert_eq!((huge.p1().get_width(), huge.p1().get_height()), (85_899_345_900, 858_993_459_000));
    assert_eq!((huge.p1().get_x(), huge.p2().get_x()), (42_949_672_950, 4_252_017_622_050));
}

#[test]
fn the_opening_is_laid_out_for_drawing() {
    let gm = GameManager::new(800, 600);
    assert_eq!(
        gm.p1().vertices(),
        &[-97000, -20000, -100000, -20000, -100000, 20000, -97000, 20000]
    );
    assert_eq!(
        gm.p2().vertices(),
        &[100000, -20000, 97000, -20000, 97000, 20000, 100000, 20000]
    );
    assert_eq!(gm.p1().idxs(), &[0, 1, 2, 0, 2, 3]);
    assert_eq!(gm.p2().idxs(), &[0, 1, 2, 0, 2, 3]);
    assert_eq!(&gm.ball().vertices()[..6], &[0, 0, 1500, 0, 1471, 390]);
    assert_eq!(&gm.ball().idxs()[..6], &[0, 1, 2, 0, 2, 3]);
    assert_eq!(&gm.ball().idxs()[93..], &[0, 32, 1]);
}

#[test]
fn a_ball_that_crosses_the_left_edge_gives_the_right_player_a_point() {
    let mut gm = GameManager::new(800, 600);
    assert!(gm.check_physics(1_000));
    let scored = gm.physics_with(1_000, 0);
    assert_eq!(scored, Some(Side::Right));
    assert_eq!((gm.p1_score(), gm.p2_score()), (0, 1));
    assert_eq!(state(&gm), (400_000, 300_000, -600, 0));
}

#[test]
fn the_left_edge_is_half_a_paddle_width_outside() {
    let mut gm = GameManager::new(800, 600);
    // x = -5_800: past the paddle, not yet out
    assert_eq!(gm.physics_with(676, 0), None);
    assert_eq!(state(&gm).0, -5_600);
    assert_eq!((gm.p1_score(), gm.p2_score()), (0, 0));
    // x = -6_200 would be out: the ball has bounced off the paddle instead
    assert_eq!(state(&gm).2, 600);

    let mut gm = GameManager::new(800, 600);
    gm.key_down(Key::Up);
    assert_eq!(gm.physics_with(500, 0), None);
    gm.key_up(Key::Up);
    assert_eq!(gm.p1().get_y(), 500_000);
    assert_eq!(gm.physics_with(176, 0), None);
    assert_eq!(state(&gm), (-5_600, 300_000, -600, 0));
    assert_eq!(gm.physics_with(-1, 0), None);
    assert_eq!(state(&gm), (-5_000, 300_000, -600, 0));
    assert_eq!(gm.physics_with(1, 0), None);
    assert_eq!(gm.physics_with(0, 0), None);
    assert_eq!(state(&gm), (-5_600, 300_000, -600, 0));
    // x = -6_200 <= -6_000
    assert_eq!(gm.physics_with(1, 0), Some(Side::Right));
    assert_eq!(state(&gm), (400_000, 300_000, -600, 0));
    assert_eq!((gm.p1_score(), gm.p2_score()), (0, 1));
}

#[test]
fn a_ball_that_meets_the_left_paddle_at_its_centre_comes_back_level() {
    let mut gm = GameManager::new(800, 600);
    let scored = gm.physics_with(640, 0);
    assert_eq!(scored, None);
    assert_eq!(state(&gm), (16_000, 300_000, 600, 0));
    assert_eq!((gm.p1_score(), gm.p2_score()), (0, 0));
    assert_eq!(gm.p2_target(), 0);
}

#[test]
fn the_left_paddle_reaches_one_and_a_half_widths() {
    let mut gm = GameManager::new(800, 600);
    assert_eq!(gm.physics_with(636, 0), None);
    assert_eq!(state(&gm), (18_400, 300_000, -600, 0));
    assert_eq!(gm.physics_with(1, 0), None);
    assert_eq!(state(&gm), (17_800, 300_000, 600, 0));
}

#[test]
fn a_hit_off_centre_sends_the_ball_off_level() {
    let mut gm = GameManager::new(800, 600);
    gm.key_down(Key::Up);
    assert_eq!(gm.physics_with(100, 0), None);
    gm.key_up(Key::Up);
    assert_eq!(gm.p1().get_y(), 340_000);
    assert_eq!(gm.physics_with(540, 0), None);
    // offset: -40_000 / 120_000 / 2 = -0.166 of the height; velocity: four times that
    assert_eq!(state(&gm), (16_000, 300_000, 600, -664));
}

#[test]
fn a_ball_beside_the_paddle_passes_it() {
    let mut gm = GameManager::new(800, 600);
    gm.key_down(Key::Down);
    assert_eq!(gm.physics_with(150, 0), None);
    gm.key_up(Key::Down);
    // the paddle's centre is exactly half its height below the ball
    assert_eq!(gm.p1().get_y(), 240_000);
    assert_eq!(gm.physics_with(490, 0), None);
    assert_eq!(state(&gm), (16_000, 300_000, -600, 0));
    assert_eq!(gm.physics_with(40, 0), Some(Side::Right));
}

#[test]
fn a_ball_just_level_with_the_paddle_is_hit() {
    let mut gm = GameManager::new(800, 600);
    gm.key_down(Key::Down);
    assert_eq!(gm.physics_with(149, 0), None);
    gm.key_up(Key::Down);
    assert_eq!(gm.p1().get_y(), 240_400);
    assert_eq!(gm.physics_with(491, 0), None);
    // offset: 59_600 * 1000 / 120_000 = 496, halved 248
    assert_eq!(state(&gm), (16_000, 300_000, 600, 992));
}

#[test]
fn the_ball_is_reflected_at_the_top_and_bottom() {
    let mut gm = GameManager::new(800, 600);
    gm.key_down(Key::Up);
    gm.physics_with(100, 0);
    gm.key_up(Key::Up);
    gm.physics_with(540, 0);
    assert_eq!(state(&gm), (16_000, 300_000, 600, -664));
    assert_eq!(gm.physics_with(442, 0), None);
    assert_eq!(state(&gm), (281_200, 6_512, 600, -664));
    assert_eq!(gm.physics_with(1, 0), None);
    // y = 5_848 <= 6_000 while moving toward smaller y
    assert_eq!(state(&gm), (281_800, 5_848, 600, 664));
    assert_eq!(gm.physics_with(1, 0), None);
    // still within the margin, but moving away: no second reflection
    assert_eq!(state(&gm), (282_400, 6_512, 600, 664));
}

#[test]
fn a_whole_rally() {
    let mut gm = GameManager::new(800, 600);
    gm.key_down(Key::Up);
    gm.physics_with(100, 0);
    gm.key_up(Key::Up);
    gm.physics_with(540, 0);
    gm.physics_with(450, 0);
    assert_eq!(state(&gm), (286_000, 1_200, 600, 664));
    assert_eq!(gm.p2().get_dir(), -1);
    let mut scores = Vec::new();
    for _ in 0..20 {
        scores.push(gm.physics_with(100, 7_000));
    }
    let mut expected = vec![None; 20];
    expected[8] = Some(Side::Left);
    expected[15] = Some(Side::Right);
    assert_eq!(scores, expected);
    assert_eq!((gm.p1_score(), gm.p2_score()), (1, 1));
    assert_eq!(state(&gm), (160_000, 300_000, -600, 0));
    assert_eq!((gm.p1().get_y(), gm.p2().get_y()), (340_000, 300_000));
    assert_eq!(gm.p2_target(), 0);
}

#[test]
fn a_ball_that_crosses_the_right_edge_gives_the_left_player_a_point() {
    let mut gm = GameManager::new(800, 600);
    gm.key_down(Key::Up);
    gm.physics_with(100, 0);
    gm.key_up(Key::Up);
    gm.physics_with(540, 0);
    gm.physics_with(450, 0);
    for _ in 0..8 {
        assert_eq!(gm.physics_with(100, 0), None);
    }
    assert_eq!(state(&gm), (766_000, 532_400, 600, 664));
    assert_eq!(gm.physics_with(66, 0), None);
    // x = 805_600 < 806_000: beside the paddle, not yet out
    assert_eq!(state(&gm), (805_600, 576_224, 600, 664));
    assert_eq!(gm.physics_with(1, 0), Some(Side::Left));
    assert_eq!((gm.p1_score(), gm.p2_score()), (1, 0));
    assert_eq!(state(&gm), (400_000, 300_000, -600, 0));
}

#[test]
fn at_most_one_player_scores_in_a_tick() {
    for dt in [0i64, 1, 100, 667, 668, 5_000, 1_000_000] {
        let mut gm = GameManager::new(800, 600);
        let scored = gm.physics_with(dt, 0);
        let total = gm.p1_score() + gm.p2_score();
        assert!(total <= 1);
        assert_eq!(total == 1, scored.is_some());
        assert_eq!(gm.p1_score(), 0);
    }
}

#[test]
fn a_hit_on_the_right_paddle_gives_the_opponent_a_new_target() {
    let mut gm = GameManager::new(800, 600);
    assert_eq!(gm.physics_with(640, 5_000), None);
    assert_eq!(gm.p2_target(), 0);
    assert_eq!(gm.physics_with(1_276, 6_000), None);
    assert_eq!(state(&gm), (781_600, 300_000, 600, 0));
    assert_eq!(gm.p2_target(), 0);
    assert_eq!(gm.physics_with(4, 7_000), None);
    assert_eq!(state(&gm), (784_000, 300_000, -600, 0));
    assert_eq!(gm.p2_target(), 7_000);
    // the new target point lies below... the ball is at a smaller y: move there
    assert_eq!(gm.p2().get_dir(), -1);
    assert_eq!(gm.physics_with(10, 9_000), None);
    assert_eq!(state(&gm), (778_000, 300_000, -600, 0));
    assert_eq!(gm.p2().get_y(), 296_000);
    assert_eq!(gm.p2_target(), 7_000);
}

#[test]
fn a_random_target_lies_within_half_the_paddle() {
    for _ in 0..50 {
        let mut gm = GameManager::new(800, 600);
        gm.physics_with(640, 0);
        assert!(gm.check_physics(1_280));
        assert_eq!(gm.physics(1_280), None);
        assert_eq!(state(&gm), (784_000, 300_000, -600, 0));
        let target = gm.p2_target();
        assert!(-60_000 <= target && target < 60_000);
        let expected = if target >= 2_400 {
            -1
        } else if target <= -2_400 {
            1
        } else {
            0
        };
        assert_eq!(gm.p2().get_dir(), expected);
    }
}

#[test]
fn without_a_hit_on_the_right_paddle_the_target_stays() {
    let mut gm = GameManager::new(800, 600);
    gm.start_with(0, 1_234);
    assert_eq!(gm.physics(640), None);
    assert_eq!(gm.p2_target(), 1_234);
    assert_eq!(gm.physics(100), None);
    assert_eq!(gm.p2_target(), 1_234);
}

#[test]
fn the_first_target_is_drawn_at_random_from_within_half_the_paddle() {
    let mut seen = Vec::new();
    for _ in 0..200 {
        let mut gm = GameManager::new(800, 600);
        assert_eq!(gm.start_game(12_345), Schedule::NextFrame);
        assert!(gm.is_running());
        let target = gm.p2_target();
        assert!(-60_000 <= target && target < 60_000);
        if !seen.contains(&target) {
            seen.push(target);
        }
    }
    assert!(seen.len() > 1);
}

#[test]
fn inside_the_deadband_the_opponent_rests() {
    let mut gm = GameManager::new(800, 600);
    gm.start_with(0, 2_399);
    gm.physics_with(1, 0);
    assert_eq!(gm.p2().get_dir(), 0);

    let mut gm = GameManager::new(800, 600);
    gm.start_with(0, -2_399);
    gm.physics_with(1, 0);
    assert_eq!(gm.p2().get_dir(), 0);
}

#[test]
fn outside_the_deadband_the_opponent_moves_toward_the_ball() {
    let mut gm = GameManager::new(800, 600);
    gm.start_with(0, 2_400);
    gm.physics_with(1, 0);
    assert_eq!(gm.p2().get_dir(), -1);

    let mut gm = GameManager::new(800, 600);
    gm.start_with(0, -2_400);
    gm.physics_with(1, 0);
    assert_eq!(gm.p2().get_dir(), 1);

    let mut gm = GameManager::new(800, 600);
    gm.start_with(0, -59_999);
    gm.physics_with(1, 0);
    assert_eq!(gm.p2().get_dir(), 1);
    gm.physics_with(100, 0);
    assert_eq!(gm.p2().get_y(), 340_000);
    assert_eq!(gm.p2().get_dir(), 1);
    gm.physics_with(50, 0);
    assert_eq!(gm.p2().get_y(), 360_000);
    assert_eq!(gm.p2().get_dir(), 0);
}

#[test]
fn the_names_of_the_keys() {
    assert_eq!(key_from_name("ArrowUp"), Some(Key::Up));
    assert_eq!(key_from_name("ArrowDown"), Some(Key::Down));
    assert_eq!(key_from_name("ArrowLeft"), None);
    assert_eq!(key_from_name("arrowup"), None);
    assert_eq!(key_from_name("ArrowUp "), None);
    assert_eq!(key_from_name("ArrowU"), None);
    assert_eq!(key_from_name("ArrowDowm"), None);
    assert_eq!(key_from_name(""), None);
    assert_eq!(key_from_name("\u{2191}"), None);
}

#[test]
fn the_keys_move_the_player_only() {
    let mut gm = GameManager::new(800, 600);
    gm.key_down(Key::Up);
    assert_eq!((gm.p1().get_dir(), gm.p2().get_dir()), (1, 0));
    gm.key_up(Key::Up);
    assert_eq!((gm.p1().get_dir(), gm.p2().get_dir()), (0, 0));
    gm.key_down(Key::Down);
    assert_eq!((gm.p1().get_dir(), gm.p2().get_dir()), (-1, 0));
    gm.key_down(Key::Up);
    assert_eq!(gm.p1().get_dir(), 1);
    gm.key_up(Key::Down);
    assert_eq!(gm.p1().get_dir(), 0);
    assert_eq!(state(&gm), (400_000, 300_000, -600, 0));
}

#[test]
fn a_tick_measures_the_time_since_the_latest_tick() {
    let mut gm = GameManager::new(800, 600);
    assert!(!gm.check_tick(1_000_100));
    assert_eq!(gm.start_with(1_000_000, 0), Schedule::NextFrame);
    assert!(gm.check_tick(1_000_100));
    let tick = gm.tick_with(1_000_100, 0);
    assert_eq!(tick.scored, None);
    assert_eq!(tick.next, Schedule::After(4));
    assert_eq!(state(&gm), (340_000, 300_000, -600, 0));
    let tick = gm.tick_with(1_000_640, 0);
    assert_eq!(tick.scored, None);
    assert_eq!(state(&gm), (16_000, 300_000, 600, 0));
    let tick = gm.tick_with(1_000_640, 0);
    assert_eq!(tick.scored, None);
    assert_eq!(state(&gm), (16_000, 300_000, 600, 0));
}

#[test]
fn a_long_pause_is_one_long_step() {
    let mut gm = GameManager::new(800, 600);
    gm.start_with(0, 0);
    gm.key_down(Key::Up);
    assert!(gm.check_tick(3_600_000));
    let tick = gm.tick_with(3_600_000, 0);
    assert_eq!(tick.scored, Some(Side::Right));
    assert_eq!(gm.p1().get_y(), 300_000 + 400 * 3_600_000);
    assert_eq!(state(&gm), (400_000, 300_000, -600, 0));
}

#[test]
fn a_tick_lays_out_every_entity() {
    let mut gm = GameManager::new(800, 600);
    gm.start_with(0, 0);
    gm.key_down(Key::Up);
    gm.tick_with(75, 0);
    assert_eq!(&gm.ball().vertices()[..4], &[-11250, 0, -9750, 0]);
    assert_eq!(
        gm.p1().vertices(),
        &[-97000, -10000, -100000, -10000, -100000, 30000, -97000, 30000]
    );
    assert_eq!(
        gm.p2().vertices(),
        &[100000, -20000, 97000, -20000, 97000, 20000, 100000, 20000]
    );
    let ball = *gm.ball().vertices();
    let p1 = *gm.p1().vertices();
    gm.render();
    assert_eq!(gm.ball().vertices(), &ball);
    assert_eq!(gm.p1().vertices(), &p1);
}

#[test]
fn physics_alone_lays_out_nothing() {
    let mut gm = GameManager::new(800, 600);
    let before = *gm.ball().vertices();
    gm.physics_with(75, 0);
    assert_eq!(gm.ball().vertices(), &before);
    gm.render();
    assert_eq!(&gm.ball().vertices()[..2], &[-11250, 0]);
}

#[test]
fn a_tick_with_a_random_target() {
    let mut gm = GameManager::new(800, 600);
    gm.start_game(0);
    let first = gm.p2_target();
    let tick = gm.tick(640);
    assert_eq!(tick.scored, None);
    assert_eq!(tick.next, Schedule::After(FRAME_DELAY));
    assert_eq!(state(&gm), (16_000, 300_000, 600, 0));
    assert_eq!(gm.p2_target(), first);
}

#[test]
fn what_cannot_be_stored_is_told_beforehand() {
    let mut gm = GameManager::new(800, 600);
    assert!(gm.check_physics(0));
    assert!(gm.check_physics(16_666_000_000));
    assert!(!gm.check_physics(16_668_000_000));
    assert!(gm.check_physics(-16_000_000_000));
    assert!(!gm.check_physics(-16_667_000_000));
    assert!(!gm.check_physics(i64::MAX));
    gm.start_with(i64::MIN, 0);
    assert!(!gm.check_tick(0));
    assert!(!gm.check_tick(i64::MAX));
    assert!(gm.check_tick(i64::MIN + 5));
}

#[test]
fn the_delay_follows_the_tick_and_the_refresh_follows_the_delay() {
    assert_eq!(FRAME_DELAY, 1000 / 240);
    assert_eq!(after(Callback::Frame), Schedule::After(4));
    assert_eq!(after(Callback::Timeout), Schedule::NextFrame);
}
