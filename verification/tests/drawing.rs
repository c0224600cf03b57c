use pong::ball::{Ball, BALL_COLOR, BALL_RADIUS};
use pong::fps;
use pong::graphics::{
    draw_circle, draw_fix_for_score_0, draw_fix_for_score_1, draw_fps, draw_guidelines,
    draw_initial, draw_number, draw_partial_circle, draw_rectangle, draw_seven_segment, drawable,
    quad, update_graphics, GraphicsCache, GraphicsText, SCORE_1_X, SCORE_1_Y, SCORE_2_X,
    SCORE_2_Y,
};
use pong::lcd::{Framebuffer, FramebufferL8, HEIGHT, WIDTH};
use pong::network::packets::{
    BallPacket, GamestatePacket, STATE_WON_PLAYER_1, STATE_WON_PLAYER_2,
};
use pong::racket::{Racket, RACKET_COLOR, RACKET_HEIGHT, RACKET_WIDTH};
use pong::BGCOLOR;

fn pixel(fb: &FramebufferL8, x: usize, y: usize) -> u8 {
    if fb.write_to_buffer_2 {
        fb.backbuffer[y * WIDTH + x]
    } else {
        fb.framebuffer[y * WIDTH + x]
    }
}

fn count(fb: &FramebufferL8, color: u8) -> usize {
    let buffer = if fb.write_to_buffer_2 { &fb.backbuffer } else { &fb.framebuffer };
    buffer.iter().filter(|&&p| p == color).count()
}

#[test]
fn new_framebuffer_is_black() {
    let fb = FramebufferL8::new();
    assert!(!fb.write_to_buffer_2);
    assert_eq!(fb.framebuffer.len(), WIDTH * HEIGHT);
    assert_eq!(fb.backbuffer.len(), WIDTH * HEIGHT);
    assert_eq!(count(&fb, 0), WIDTH * HEIGHT);
    assert_eq!(WIDTH, 480);
    assert_eq!(HEIGHT, 272);
}

#[test]
fn set_pixel_sets_one_pixel_of_the_drawn_buffer() {
    let mut fb = FramebufferL8::new();
    fb.set_pixel(3, 2, 77);
    assert_eq!(fb.framebuffer[2 * 480 + 3], 77);
    assert_eq!(count(&fb, 77), 1);
    assert!(fb.backbuffer.iter().all(|&p| p == 0));
    fb.set_pixel(479, 271, 5);
    assert_eq!(fb.framebuffer[480 * 272 - 1], 5);
}

#[test]
fn swap_shows_the_picture_and_goes_on_with_a_copy() {
    let mut fb = FramebufferL8::new();
    fb.set_pixel(10, 10, 9);
    fb.swap_buffers();
    assert!(fb.write_to_buffer_2);
    assert_eq!(fb.framebuffer, fb.backbuffer);
    assert_eq!(pixel(&fb, 10, 10), 9);
    fb.set_pixel(11, 10, 8);
    assert_eq!(fb.backbuffer[10 * 480 + 11], 8);
    assert_eq!(fb.framebuffer[10 * 480 + 11], 0);
    fb.swap_buffers();
    assert!(!fb.write_to_buffer_2);
    assert_eq!(fb.framebuffer[10 * 480 + 11], 8);
    assert_eq!(fb.framebuffer, fb.backbuffer);
}

#[test]
fn clear_wipes_the_drawn_buffer_only() {
    let mut fb = FramebufferL8::new();
    fb.set_pixel(10, 10, 9);
    fb.swap_buffers();
    fb.clear();
    assert!(fb.backbuffer.iter().all(|&p| p == 0));
    assert_eq!(fb.framebuffer[10 * 480 + 10], 9);
}

#[test]
fn copy_full_takes_the_head_of_the_source() {
    let mut fb = FramebufferL8::new();
    let mut src = vec![7u8; WIDTH * HEIGHT + 5];
    src[0] = 1;
    src[WIDTH * HEIGHT - 1] = 2;
    src[WIDTH * HEIGHT] = 3;
    fb.copy_full(&src);
    assert_eq!(fb.framebuffer.len(), WIDTH * HEIGHT);
    assert_eq!(fb.framebuffer[0], 1);
    assert_eq!(fb.framebuffer[1], 7);
    assert_eq!(fb.framebuffer[WIDTH * HEIGHT - 1], 2);
    assert!(fb.backbuffer.iter().all(|&p| p == 0));
}

#[test]
fn rectangle_includes_its_edges() {
    let mut fb = FramebufferL8::new();
    draw_rectangle(&mut fb, 5, 7, 10, 11, 200);
    assert_eq!(count(&fb, 200), 3 * 2);
    for y in 10..=11 {
        for x in 5..=7 {
            assert_eq!(pixel(&fb, x, y), 200);
        }
    }
    assert_eq!(pixel(&fb, 4, 10), 0);
    assert_eq!(pixel(&fb, 8, 10), 0);
    assert_eq!(pixel(&fb, 5, 9), 0);
    assert_eq!(pixel(&fb, 5, 12), 0);
}

#[test]
fn empty_rectangle_draws_nothing() {
    let mut fb = FramebufferL8::new();
    draw_rectangle(&mut fb, 7, 5, 10, 11, 200);
    draw_rectangle(&mut fb, 5, 7, 11, 10, 200);
    draw_rectangle(&mut fb, 600, 500, 0, 0, 200);
    assert_eq!(count(&fb, 200), 0);
}

#[test]
fn rectangle_may_cover_the_whole_screen() {
    let mut fb = FramebufferL8::new();
    draw_rectangle(&mut fb, 0, 479, 0, 271, 1);
    assert_eq!(count(&fb, 1), WIDTH * HEIGHT);
}

#[test]
fn quad_is_a_square() {
    let mut fb = FramebufferL8::new();
    quad(100, 50, 4, &33, &mut fb);
    assert_eq!(count(&fb, 33), 16);
    assert_eq!(pixel(&fb, 100, 50), 33);
    assert_eq!(pixel(&fb, 103, 53), 33);
    assert_eq!(pixel(&fb, 104, 53), 0);
    assert_eq!(pixel(&fb, 103, 54), 0);
    quad(100, 50, 0, &44, &mut fb);
    assert_eq!(count(&fb, 44), 0);
}

#[test]
fn circle_is_the_closed_disc() {
    let mut fb = FramebufferL8::new();
    draw_circle(&mut fb, 100, 60, 3, 9);
    let mut expected = 0;
    for y in 0..HEIGHT {
        for x in 0..WIDTH {
            let dx = x as i64 - 100;
            let dy = y as i64 - 60;
            let inside = dx * dx + dy * dy <= 9;
            assert_eq!(pixel(&fb, x, y) == 9, inside);
            if inside {
                expected += 1;
            }
        }
    }
    assert_eq!(expected, 29);
    assert_eq!(pixel(&fb, 103, 60), 9);
    assert_eq!(pixel(&fb, 102, 62), 9);
    assert_eq!(pixel(&fb, 102, 63), 0);
}

#[test]
fn circle_of_radius_zero_is_one_pixel() {
    let mut fb = FramebufferL8::new();
    draw_circle(&mut fb, 0, 0, 0, 9);
    assert_eq!(count(&fb, 9), 1);
    assert_eq!(pixel(&fb, 0, 0), 9);
}

#[test]
fn partial_circle_leaves_out_the_second_disc() {
    let mut fb = FramebufferL8::new();
    draw_partial_circle(&mut fb, 100, 60, 103, 60, 10, 10, 9);
    for y in 0..HEIGHT {
        for x in 0..WIDTH {
            let dx = x as i64 - 100;
            let dy = y as i64 - 60;
            let px = x as i64 - 103;
            let inside = dx * dx + dy * dy <= 100 && px * px + dy * dy > 100;
            assert_eq!(pixel(&fb, x, y) == 9, inside, "at {} {}", x, y);
        }
    }
    assert_eq!(pixel(&fb, 90, 60), 9);
    assert_eq!(pixel(&fb, 100, 60), 0);
}

#[test]
fn partial_circle_of_itself_draws_nothing() {
    let mut fb = FramebufferL8::new();
    draw_partial_circle(&mut fb, 100, 60, 100, 60, 10, 10, 9);
    assert_eq!(count(&fb, 9), 0);
}

#[test]
fn partial_circle_far_from_the_second_disc_is_whole() {
    let mut a = FramebufferL8::new();
    let mut b = FramebufferL8::new();
    draw_partial_circle(&mut a, 100, 60, 300, 200, 10, 10, 9);
    draw_circle(&mut b, 100, 60, 10, 9);
    assert_eq!(a.framebuffer, b.framebuffer);
    assert_eq!(count(&a, 9), 317);
}

#[test]
fn seven_segment_eight_lights_every_segment() {
    let mut fb = FramebufferL8::new();
    draw_rectangle(&mut fb, 0, 20, 0, 20, 50);
    draw_seven_segment(&mut fb, 4, 5, true, true, true, true, true, true, true);
    let rows = ["###", "#.#", "#.#", "###", "#.#", "#.#", "###"];
    for (dy, row) in rows.iter().enumerate() {
        for (dx, c) in row.chars().enumerate() {
            let expected = if c == '#' { 255 } else { 50 };
            assert_eq!(pixel(&fb, 4 + dx, 5 + dy), expected);
        }
    }
    assert_eq!(count(&fb, 255), 17);
}

#[test]
fn seven_segment_draws_dark_segments_black() {
    let mut fb = FramebufferL8::new();
    draw_rectangle(&mut fb, 0, 20, 0, 20, 50);
    draw_seven_segment(&mut fb, 4, 5, false, true, false, true, false, true, false);
    let rows = ["...", "#.o", "#.o", "###", "o.#", "o.#", "..."];
    for (dy, row) in rows.iter().enumerate() {
        for (dx, c) in row.chars().enumerate() {
            let expected = match c {
                '#' => 255,
                'o' => 0,
                _ => {
                    if dy == 0 || dy == 6 {
                        0
                    } else {
                        50
                    }
                }
            };
            assert_eq!(pixel(&fb, 4 + dx, 5 + dy), expected, "at {} {}", dx, dy);
        }
    }
}

fn digit_shape(number: usize) -> Vec<String> {
    let mut fb = FramebufferL8::new();
    draw_number(&mut fb, 0, 0, number);
    (0..7)
        .map(|y| (0..3).map(|x| if pixel(&fb, x, y) == 255 { '#' } else { '.' }).collect())
        .collect()
}

#[test]
fn digits() {
    assert_eq!(digit_shape(0), ["###", "#.#", "#.#", "...", "#.#", "#.#", "###"]);
    assert_eq!(digit_shape(1), ["...", "..#", "..#", "...", "..#", "..#", "..."]);
    assert_eq!(digit_shape(2), ["###", "..#", "..#", "###", "#..", "#..", "###"]);
    assert_eq!(digit_shape(3), ["###", "..#", "..#", "###", "..#", "..#", "###"]);
    assert_eq!(digit_shape(4), ["...", "#.#", "#.#", "###", "..#", "..#", "..."]);
    assert_eq!(digit_shape(5), ["###", "#..", "#..", "###", "..#", "..#", "###"]);
    assert_eq!(digit_shape(6), ["###", "#..", "#..", "###", "#.#", "#.#", "###"]);
    assert_eq!(digit_shape(7), ["###", "..#", "..#", "...", "..#", "..#", "..."]);
    assert_eq!(digit_shape(8), ["###", "#.#", "#.#", "###", "#.#", "#.#", "###"]);
    assert_eq!(digit_shape(9), ["###", "#.#", "#.#", "###", "..#", "..#", "###"]);
}

#[test]
fn number_above_nine_draws_nothing() {
    let mut fb = FramebufferL8::new();
    draw_rectangle(&mut fb, 0, 10, 0, 10, 50);
    let before = fb.framebuffer.clone();
    draw_number(&mut fb, 0, 0, 10);
    draw_number(&mut fb, 5000, 5000, 11);
    assert_eq!(fb.framebuffer, before);
}

#[test]
fn fps_is_two_digits_capped_at_99() {
    let mut counter = fps::init(0);
    counter.last_fps = 42;
    let mut fb = FramebufferL8::new();
    draw_fps(&mut fb, &counter);
    let mut expected = FramebufferL8::new();
    draw_number(&mut expected, 0, 0, 4);
    draw_number(&mut expected, 5, 0, 2);
    assert_eq!(fb.framebuffer, expected.framebuffer);

    counter.last_fps = 1234;
    let mut fb = FramebufferL8::new();
    draw_fps(&mut fb, &counter);
    let mut expected = FramebufferL8::new();
    draw_number(&mut expected, 0, 0, 9);
    draw_number(&mut expected, 5, 0, 9);
    assert_eq!(fb.framebuffer, expected.framebuffer);

    counter.last_fps = 7;
    let mut fb = FramebufferL8::new();
    draw_fps(&mut fb, &counter);
    let mut expected = FramebufferL8::new();
    draw_number(&mut expected, 0, 0, 0);
    draw_number(&mut expected, 5, 0, 7);
    assert_eq!(fb.framebuffer, expected.framebuffer);
}

#[test]
fn guidelines() {
    let mut fb = FramebufferL8::new();
    draw_guidelines(&mut fb);
    for y in 0..HEIGHT {
        for x in 0..WIDTH {
            let expected = if y == 136 {
                128
            } else if x == 240 {
                128
            } else if x == 120 || x == 360 {
                64
            } else {
                0
            };
            assert_eq!(pixel(&fb, x, y), expected);
        }
    }
}

#[test]
fn score_fixes() {
    let mut fb = FramebufferL8::new();
    draw_rectangle(&mut fb, 0, 479, 0, 271, 9);
    draw_fix_for_score_0(&mut fb, 100, 50);
    assert_eq!(count(&fb, 0), 2 * 21);
    assert_eq!(pixel(&fb, 100, 60), 0);
    assert_eq!(pixel(&fb, 101, 80), 0);
    assert_eq!(pixel(&fb, 102, 60), 9);
    assert_eq!(pixel(&fb, 100, 59), 9);
    assert_eq!(pixel(&fb, 100, 81), 9);
    let mut fb = FramebufferL8::new();
    draw_rectangle(&mut fb, 0, 479, 0, 271, 9);
    draw_fix_for_score_1(&mut fb, 100, 50);
    assert_eq!(count(&fb, 0), 7 * 21);
    assert_eq!(pixel(&fb, 110, 60), 0);
    assert_eq!(pixel(&fb, 116, 80), 0);
    assert_eq!(pixel(&fb, 109, 60), 9);
    assert_eq!(pixel(&fb, 117, 60), 9);
}

#[test]
fn racket_starts() {
    let left = Racket::new(0);
    assert_eq!(left.get_xpos_centre(), 10);
    assert_eq!(left.get_ypos_centre(), 135);
    assert_eq!(left.get_ypos_centre_old(), 135);
    let right = Racket::new(1);
    assert_eq!(right.get_xpos_centre(), 469);
    assert_eq!(Racket::new(7).get_xpos_centre(), 469);
    assert_eq!((RACKET_WIDTH, RACKET_HEIGHT, RACKET_COLOR), (10, 30, 150));
}

#[test]
fn racket_setters() {
    let mut racket = Racket::new(0);
    racket.set_ypos_centre(50);
    assert_eq!(racket.get_ypos_centre(), 50);
    assert_eq!(racket.get_ypos_centre_old(), 135);
    racket.set_ypos_centre_old(60);
    assert_eq!(racket.get_ypos_centre_old(), 60);
    assert_eq!(racket.get_ypos_centre(), 50);
    assert_eq!(racket.get_xpos_centre(), 10);
}

#[test]
fn racket_is_a_rectangle_round_its_centre() {
    let mut fb = FramebufferL8::new();
    Racket::new(0).draw_racket(&mut fb);
    let mut expected = FramebufferL8::new();
    draw_rectangle(&mut expected, 0, 20, 105, 165, 150);
    assert_eq!(fb.framebuffer, expected.framebuffer);
    assert_eq!(count(&fb, 150), 21 * 61);
}

#[test]
fn moved_racket_strips() {
    let mut fb = FramebufferL8::new();
    let racket = Racket::new(1);
    racket.draw_racket(&mut fb);
    racket.draw_moved_racket(&mut fb, 105, 109, 166, 170);
    let mut expected = FramebufferL8::new();
    draw_rectangle(&mut expected, 459, 479, 110, 170, 150);
    assert_eq!(fb.framebuffer, expected.framebuffer);
}

fn picture_after_move(from: u16, to: u16) -> (Vec<u8>, Racket) {
    let mut fb = FramebufferL8::new();
    let mut racket = Racket::new(0);
    racket.set_ypos_centre(from);
    racket.draw_racket(&mut fb);
    racket.update_racket_pos(&mut fb, to);
    (fb.framebuffer, racket)
}

fn picture_at(at: u16) -> Vec<u8> {
    let mut fb = FramebufferL8::new();
    let mut racket = Racket::new(0);
    racket.set_ypos_centre(at);
    racket.draw_racket(&mut fb);
    fb.framebuffer
}

#[test]
fn moving_a_racket_redraws_it_at_its_new_place() {
    for (from, to) in [
        (135u16, 143u16),
        (135, 127),
        (135, 135),
        (30, 241),
        (241, 30),
        (100, 161),
        (100, 160),
        (161, 100),
        (100, 101),
    ] {
        let (picture, racket) = picture_after_move(from, to);
        assert_eq!(picture, picture_at(to), "from {} to {}", from, to);
        assert_eq!(racket.get_ypos_centre(), to);
        assert_eq!(racket.get_ypos_centre_old(), from);
    }
}

#[test]
fn ball_starts_and_setters() {
    let mut ball = Ball::new();
    assert_eq!(
        (
            ball.get_xpos_centre(),
            ball.get_ypos_centre(),
            ball.get_xpos_centre_old(),
            ball.get_ypos_centre_old()
        ),
        (239, 135, 239, 135)
    );
    ball.set_xpos_centre(1);
    ball.set_ypos_centre(2);
    ball.set_xpos_centre_old(3);
    ball.set_ypos_centre_old(4);
    assert_eq!(
        (
            ball.get_xpos_centre(),
            ball.get_ypos_centre(),
            ball.get_xpos_centre_old(),
            ball.get_ypos_centre_old()
        ),
        (1, 2, 3, 4)
    );
    assert_eq!((BALL_RADIUS, BALL_COLOR, BGCOLOR), (10, 255, 0));
}

#[test]
fn ball_is_a_disc_of_its_radius() {
    let mut fb = FramebufferL8::new();
    Ball::new().draw_ball(&mut fb);
    let mut expected = FramebufferL8::new();
    draw_circle(&mut expected, 239, 135, 10, 255);
    assert_eq!(fb.framebuffer, expected.framebuffer);
    assert_eq!(count(&fb, 255), 317);
}

#[test]
fn moving_the_ball_redraws_it_at_its_new_place() {
    for (x, y) in [(242i16, 138i16), (239, 135), (10, 10), (469, 261), (300, 135), (240, 135)] {
        let mut fb = FramebufferL8::new();
        let mut ball = Ball::new();
        ball.draw_ball(&mut fb);
        ball.update_ball_pos(&mut fb, BallPacket { x, y, x_vel: 0, y_vel: 0 });
        let mut expected = FramebufferL8::new();
        draw_circle(&mut expected, x as u32, y as u32, 10, 255);
        assert_eq!(fb.framebuffer, expected.framebuffer, "to {} {}", x, y);
        assert_eq!((ball.get_xpos_centre(), ball.get_ypos_centre()), (x as u16, y as u16));
        assert_eq!((ball.get_xpos_centre_old(), ball.get_ypos_centre_old()), (239, 135));
    }
}

#[test]
fn initial_picture_has_both_rackets_and_the_ball() {
    let mut fb = FramebufferL8::new();
    let rackets = [Racket::new(0), Racket::new(1)];
    let ball = Ball::new();
    draw_initial(&mut fb, &rackets, &ball);
    assert_eq!(count(&fb, 150), 2 * 21 * 61);
    assert_eq!(count(&fb, 255), 317);
    assert_eq!(pixel(&fb, 0, 105), 150);
    assert_eq!(pixel(&fb, 479, 165), 150);
    assert_eq!(pixel(&fb, 239, 135), 255);
}

#[test]
fn new_cache_matches_no_score() {
    let cache = GraphicsCache::new();
    assert_eq!(cache.score, [99, 99]);
    assert_eq!(cache.last_score_redraw, 0);
    assert_eq!(cache.last_state, 0);
    assert_eq!((SCORE_1_X, SCORE_1_Y, SCORE_2_X, SCORE_2_Y), (215, 222, 250, 222));
}

#[test]
fn states_that_can_be_drawn() {
    let mut state = GamestatePacket::new(0);
    assert!(drawable(&state));
    state.ball.x = 9;
    assert!(!drawable(&state));
    state.ball.x = 469;
    assert!(drawable(&state));
    state.ball.x = 470;
    assert!(!drawable(&state));
    state.ball.x = 240;
    state.ball.y = 262;
    assert!(!drawable(&state));
    state.ball.y = 261;
    state.rackets[1].y = 29;
    assert!(!drawable(&state));
    state.rackets[1].y = 241;
    assert!(drawable(&state));
    state.rackets[0].y = 242;
    assert!(!drawable(&state));
    state.rackets[0].y = -30;
    assert!(!drawable(&state));
}

#[test]
fn first_frame_writes_both_scores() {
    let mut fb = FramebufferL8::new();
    let mut rackets = [Racket::new(0), Racket::new(1)];
    let mut ball = Ball::new();
    let mut cache = GraphicsCache::new();
    draw_initial(&mut fb, &rackets, &ball);
    let state = GamestatePacket::new(0);
    let text = update_graphics(&mut fb, &state, &mut rackets, &mut ball, &mut cache, 5, 1);
    assert_eq!(text, GraphicsText { banner: None, score_1: Some(0), score_2: Some(0) });
    assert_eq!(cache, GraphicsCache { score: [0, 0], last_score_redraw: 5, last_state: 0 });
    assert_eq!((ball.get_xpos_centre(), ball.get_ypos_centre()), (240, 136));
    assert_eq!(rackets[0].get_ypos_centre(), 136);
    assert_eq!(rackets[1].get_ypos_centre(), 136);
    assert_eq!(rackets[1].get_ypos_centre_old(), 135);
    // the zero's fix was applied at both scores
    let mut expected = FramebufferL8::new();
    let mut r = [Racket::new(0), Racket::new(1)];
    r[0].set_ypos_centre(136);
    r[1].set_ypos_centre(136);
    let mut b = Ball::new();
    b.set_xpos_centre(240);
    b.set_ypos_centre(136);
    draw_initial(&mut expected, &r, &b);
    draw_fix_for_score_0(&mut expected, SCORE_1_X, SCORE_1_Y);
    draw_fix_for_score_0(&mut expected, SCORE_2_X, SCORE_2_Y);
    assert_eq!(fb.framebuffer, expected.framebuffer);
}

#[test]
fn scores_are_written_again_only_when_due() {
    let mut fb = FramebufferL8::new();
    let mut rackets = [Racket::new(0), Racket::new(1)];
    let mut ball = Ball::new();
    let mut cache = GraphicsCache { score: [0, 0], last_score_redraw: 100, last_state: 0 };
    let mut state = GamestatePacket::new(0);
    let none = GraphicsText { banner: None, score_1: None, score_2: None };
    assert_eq!(update_graphics(&mut fb, &state, &mut rackets, &mut ball, &mut cache, 900, 1), none);
    assert_eq!(cache.last_score_redraw, 100);
    let text = update_graphics(&mut fb, &state, &mut rackets, &mut ball, &mut cache, 901, 1);
    assert_eq!(text, GraphicsText { banner: None, score_1: Some(0), score_2: Some(0) });
    assert_eq!(cache.last_score_redraw, 901);
    state.score = [0, 1];
    let text = update_graphics(&mut fb, &state, &mut rackets, &mut ball, &mut cache, 902, 1);
    assert_eq!(text, GraphicsText { banner: None, score_1: None, score_2: Some(1) });
    assert_eq!(cache.score, [0, 1]);
    assert_eq!(cache.last_score_redraw, 902);
}

#[test]
fn score_redraw_time_near_the_end_of_the_clock() {
    let mut fb = FramebufferL8::new();
    let mut rackets = [Racket::new(0), Racket::new(1)];
    let mut ball = Ball::new();
    let mut cache =
        GraphicsCache { score: [0, 0], last_score_redraw: usize::MAX - 10, last_state: 0 };
    let state = GamestatePacket::new(0);
    let text =
        update_graphics(&mut fb, &state, &mut rackets, &mut ball, &mut cache, usize::MAX, 1);
    assert_eq!(text, GraphicsText { banner: None, score_1: None, score_2: None });
}

#[test]
fn winner_is_announced_once() {
    let mut fb = FramebufferL8::new();
    let mut rackets = [Racket::new(0), Racket::new(1)];
    let mut ball = Ball::new();
    let mut cache = GraphicsCache { score: [9, 3], last_score_redraw: 0, last_state: 0 };
    let mut state = GamestatePacket::new(0);
    state.score = [9, 3];
    state.state = STATE_WON_PLAYER_1;
    let text = update_graphics(&mut fb, &state, &mut rackets, &mut ball, &mut cache, 1, 1);
    assert_eq!(text.banner, Some(1));
    assert_eq!(cache.last_state, STATE_WON_PLAYER_1);
    let text = update_graphics(&mut fb, &state, &mut rackets, &mut ball, &mut cache, 2, 1);
    assert_eq!(text.banner, None);
    state.state = STATE_WON_PLAYER_2;
    let text = update_graphics(&mut fb, &state, &mut rackets, &mut ball, &mut cache, 3, 1);
    assert_eq!(text.banner, Some(2));
    state.state = 7;
    let text = update_graphics(&mut fb, &state, &mut rackets, &mut ball, &mut cache, 4, 1);
    assert_eq!(text.banner, None);
    assert_eq!(cache.last_state, 7);
}

#[test]
fn restart_wipes_the_picture() {
    let mut fb = FramebufferL8::new();
    draw_rectangle(&mut fb, 0, 479, 0, 271, 77);
    let mut rackets = [Racket::new(0), Racket::new(1)];
    let mut ball = Ball::new();
    let mut cache = GraphicsCache { score: [9, 3], last_score_redraw: 50, last_state: 101 };
    let state = GamestatePacket::new(0);
    let text = update_graphics(&mut fb, &state, &mut rackets, &mut ball, &mut cache, 60, 1);
    assert_eq!(text, GraphicsText { banner: None, score_1: Some(0), score_2: Some(0) });
    assert_eq!(cache, GraphicsCache { score: [0, 0], last_score_redraw: 60, last_state: 0 });
    assert_eq!(count(&fb, 77), 0);
    assert_eq!(count(&fb, 150), 2 * 21 * 61);
    assert_eq!(count(&fb, 255), 317);
}
