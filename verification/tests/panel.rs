use pong::fps;
use pong::game::GameState;
use pong::input::{Input, Touch, TouchPoint};
use pong::lcd::text::{GlyphPixel, TextWriter};
use pong::lcd::{Framebuffer, FramebufferL8};
use pong::menu::{choose_client_server, choose_local_network, choose_only_local};
use pong::network::local::{
    handle_local, GamestatePacket as LocalGamestate, InputPacket as Direction, LocalClient,
    LocalServer,
};
use pong::network::packets::{BallPacket, InputPacket, RacketPacket};

fn at(x: u16, y: u16) -> TouchPoint {
    TouchPoint { x, y }
}

#[test]
fn fps_counts_frames_between_reports() {
    let mut counter = fps::init(5000);
    assert_eq!((counter.last_print, counter.frames, counter.last_fps), (5000, 0, 0));
    assert!(!counter.output_enabled);
    assert_eq!(counter.count_frame(5016), None);
    assert_eq!(counter.count_frame(6000), None);
    assert_eq!((counter.last_print, counter.frames, counter.last_fps), (5000, 2, 0));
    assert_eq!(counter.count_frame(6001), None);
    assert_eq!((counter.last_print, counter.frames, counter.last_fps), (6001, 0, 3));
}

#[test]
fn fps_reports_when_output_is_enabled() {
    let mut counter = fps::init(0);
    counter.output_enabled = true;
    for tick in 1..=60 {
        assert_eq!(counter.count_frame(tick * 16), None);
    }
    assert_eq!(counter.count_frame(1001), Some(61));
    assert_eq!(counter.last_fps, 61);
    assert_eq!(counter.frames, 0);
    assert_eq!(counter.last_print, 1001);
}

#[test]
fn two_players_share_the_panel() {
    let mut input = Input::new();
    let mut left = InputPacket { goal_y: 1 };
    let mut right = InputPacket { goal_y: 2 };
    input.evaluate_touch_two_players(&vec![at(199, 50), at(280, 200)], &mut left, &mut right);
    assert_eq!((left.goal_y, right.goal_y), (50, 200));
    input.evaluate_touch_two_players(&vec![at(200, 70), at(279, 90)], &mut left, &mut right);
    assert_eq!((left.goal_y, right.goal_y), (50, 200));
    input.evaluate_touch_two_players(
        &vec![at(0, 10), at(479, 11), at(100, 12), at(240, 13), at(300, 14)],
        &mut left,
        &mut right,
    );
    assert_eq!((left.goal_y, right.goal_y), (12, 14));
    input.evaluate_touch_two_players(&vec![], &mut left, &mut right);
    assert_eq!((left.goal_y, right.goal_y), (12, 14));
    assert!(!input.touch_last_frame);
}

#[test]
fn one_player_takes_the_last_touch() {
    let mut input = Input::new();
    let mut goal = InputPacket { goal_y: 1 };
    input.evaluate_touch_one_player(&vec![], &mut goal);
    assert_eq!(goal.goal_y, 1);
    input.evaluate_touch_one_player(&vec![at(240, 77)], &mut goal);
    assert_eq!(goal.goal_y, 77);
    input.evaluate_touch_one_player(&vec![at(0, 5), at(479, 271)], &mut goal);
    assert_eq!(goal.goal_y, 271);
}

#[test]
fn rows_beyond_the_signed_range_wrap() {
    let mut input = Input::new();
    let mut goal = InputPacket { goal_y: 1 };
    input.evaluate_touch_one_player(&vec![at(0, 0x7fff)], &mut goal);
    assert_eq!(goal.goal_y, i16::MAX);
    input.evaluate_touch_one_player(&vec![at(0, 0x8000)], &mut goal);
    assert_eq!(goal.goal_y, i16::MIN);
    input.evaluate_touch_one_player(&vec![at(0, 0xffff)], &mut goal);
    assert_eq!(goal.goal_y, -1);
}

#[test]
fn menu_sees_the_first_touch_and_remembers_it() {
    let mut input = Input::new();
    let touch = input.handle_menu(&vec![]);
    assert_eq!(touch, Touch { is_down: false, x: 0, y: 0, any_touch_last_frame: false });
    assert!(!input.touch_last_frame);
    let touch = input.handle_menu(&vec![at(7, 8), at(9, 10)]);
    assert_eq!(touch, Touch { is_down: true, x: 7, y: 8, any_touch_last_frame: false });
    assert!(input.touch_last_frame);
    let touch = input.handle_menu(&vec![at(1, 2)]);
    assert_eq!(touch, Touch { is_down: true, x: 1, y: 2, any_touch_last_frame: true });
    let touch = input.handle_menu(&vec![]);
    assert_eq!(touch, Touch { is_down: false, x: 0, y: 0, any_touch_last_frame: true });
    assert!(!input.touch_last_frame);
}

#[test]
fn first_menu() {
    let mut fb = FramebufferL8::new();
    fb.set_pixel(1, 1, 9);
    let mut input = Input::new();
    let next = choose_local_network(false, &mut fb, &mut input, &vec![]);
    assert_eq!(next, GameState::ChooseLocalOrNetwork);
    assert_eq!(fb.framebuffer[481], 9);
    let next = choose_local_network(true, &mut fb, &mut input, &vec![at(239, 5)]);
    assert_eq!(next, GameState::GameRunningLocal);
    assert_eq!(fb.framebuffer[481], 0);
    // still down: not a press
    let next = choose_local_network(false, &mut fb, &mut input, &vec![at(239, 5)]);
    assert_eq!(next, GameState::ChooseLocalOrNetwork);
    choose_local_network(false, &mut fb, &mut input, &vec![]);
    let next = choose_local_network(false, &mut fb, &mut input, &vec![at(240, 5)]);
    assert_eq!(next, GameState::ChooseClientOrServer);
}

#[test]
fn role_menu() {
    let mut fb = FramebufferL8::new();
    let mut input = Input::new();
    let mut is_server = true;
    let next = choose_client_server(true, &mut fb, &mut input, &vec![], &mut is_server);
    assert_eq!(next, GameState::ChooseClientOrServer);
    assert!(is_server);
    let next = choose_client_server(false, &mut fb, &mut input, &vec![at(10, 0)], &mut is_server);
    assert_eq!(next, GameState::ConnectToNetwork);
    assert!(!is_server);
    let next = choose_client_server(false, &mut fb, &mut input, &vec![at(400, 0)], &mut is_server);
    assert_eq!(next, GameState::ChooseClientOrServer);
    assert!(!is_server);
    choose_client_server(false, &mut fb, &mut input, &vec![], &mut is_server);
    let next = choose_client_server(false, &mut fb, &mut input, &vec![at(400, 0)], &mut is_server);
    assert_eq!(next, GameState::ConnectToNetwork);
    assert!(is_server);
}

#[test]
fn local_only_menu() {
    let mut input = Input::new();
    assert_eq!(choose_only_local(&mut input, &vec![]), GameState::ChooseOnlyLocal);
    assert_eq!(choose_only_local(&mut input, &vec![at(300, 0)]), GameState::ChooseOnlyLocal);
    assert_eq!(choose_only_local(&mut input, &vec![]), GameState::ChooseOnlyLocal);
    assert_eq!(choose_only_local(&mut input, &vec![at(100, 0)]), GameState::GameRunningLocal);
    assert_eq!(choose_only_local(&mut input, &vec![at(100, 0)]), GameState::ChooseOnlyLocal);
}

fn glyph(x: i32, y: i32, alpha: u8) -> GlyphPixel {
    GlyphPixel { x, y, alpha }
}

#[test]
fn text_is_written_from_the_cursor() {
    let mut fb = FramebufferL8::new();
    let mut writer = TextWriter::new();
    writer.write_at(&mut fb, &vec![glyph(0, 0, 10), glyph(3, 2, 20)], 20, 40, 130);
    assert_eq!(fb.framebuffer[130 * 480 + 40], 10);
    assert_eq!(fb.framebuffer[132 * 480 + 43], 20);
    assert_eq!(writer, TextWriter { x_pos: 40, y_pos: 130 });
}

#[test]
fn text_breaks_at_the_right_edge() {
    let mut fb = FramebufferL8::new();
    let mut writer = TextWriter::new();
    writer.write_at(&mut fb, &vec![glyph(9, 1, 10), glyph(10, 1, 20), glyph(12, 1, 30)], 20, 470, 100);
    assert_eq!(fb.framebuffer[101 * 480 + 479], 10);
    // the pixel that would fall on column 480 starts the next line
    assert_eq!(fb.framebuffer[121 * 480], 20);
    assert_eq!(fb.framebuffer[121 * 480 + 2], 30);
    assert_eq!(writer, TextWriter { x_pos: -10, y_pos: 120 });
}

#[test]
fn text_starts_again_at_the_top() {
    let mut fb = FramebufferL8::new();
    let mut writer = TextWriter::new();
    writer.write_at(&mut fb, &vec![glyph(0, 3, 10)], 20, 5, 252);
    assert_eq!(writer, TextWriter { x_pos: 5, y_pos: 0 });
    assert_eq!(fb.framebuffer[3 * 480 + 5], 10);
    writer.write_at(&mut fb, &vec![glyph(0, 3, 11)], 20, 5, 251);
    assert_eq!(writer, TextWriter { x_pos: 5, y_pos: 251 });
    assert_eq!(fb.framebuffer[254 * 480 + 5], 11);
}

#[test]
fn text_pixels_off_the_screen_are_dropped() {
    let mut fb = FramebufferL8::new();
    let mut writer = TextWriter::new();
    // after the break the cursor stands left of the screen by 10
    writer.write_at(&mut fb, &vec![glyph(10, 0, 10), glyph(4, 0, 20)], 20, 470, 100);
    assert_eq!(fb.framebuffer[120 * 480], 10);
    assert_eq!(fb.framebuffer.iter().filter(|&&p| p == 20).count(), 0);
    // a pixel below the bottom edge
    writer.write_at(&mut fb, &vec![glyph(0, 30, 30)], 20, 0, 250);
    assert_eq!(fb.framebuffer.iter().filter(|&&p| p == 30).count(), 0);
}

#[test]
fn single_pixel_of_text() {
    let mut fb = FramebufferL8::new();
    let mut writer = TextWriter::new();
    writer.write_pixel(&mut fb, glyph(7, 9, 200), 20);
    assert_eq!(fb.framebuffer[9 * 480 + 7], 200);
    assert_eq!(writer, TextWriter { x_pos: 0, y_pos: 0 });
}

#[test]
fn directions() {
    assert_eq!(Direction::new(), Direction { up: false, down: false });
    assert_eq!(Direction { up: false, down: false }.says_move_up(), 0);
    assert_eq!(Direction { up: true, down: false }.says_move_up(), -1);
    assert_eq!(Direction { up: false, down: true }.says_move_up(), 1);
    assert_eq!(Direction { up: true, down: true }.says_move_up(), 0);
}

#[test]
fn loop_back_opening_with_a_given_serve() {
    let state = LocalGamestate::with_serve(45, 255);
    assert_eq!(state.rackets, [RacketPacket { x: 0, y: 100 }, RacketPacket { x: 400, y: 100 }]);
    assert_eq!(state.ball, BallPacket { x: 239, y: 135, x_vel: 5, y_vel: 15 });
    assert_eq!(state.score, [0, 0]);
    assert_eq!(LocalGamestate::with_serve(19, 20).ball.x_vel, 19);
    assert_eq!(LocalGamestate::with_serve(19, 20).ball.y_vel, 0);
}

#[test]
fn loop_back_opening_with_a_random_serve() {
    let mut seen = std::collections::BTreeSet::new();
    for _ in 0..200 {
        let state = LocalGamestate::new();
        assert_eq!(state.rackets, [RacketPacket { x: 0, y: 100 }, RacketPacket { x: 400, y: 100 }]);
        assert_eq!((state.ball.x, state.ball.y), (239, 135));
        assert!(0 <= state.ball.x_vel && state.ball.x_vel < 20);
        assert!(0 <= state.ball.y_vel && state.ball.y_vel < 20);
        assert_eq!(state.score, [0, 0]);
        seen.insert((state.ball.x_vel, state.ball.y_vel));
    }
    // a generator that always gave the same byte would give one serve
    assert!(seen.len() > 1);
}

#[test]
fn loop_back_hand_over() {
    let mut client1 = LocalClient::new();
    let mut client2 = LocalClient::new();
    let mut server = LocalServer::new();
    assert_eq!(client1.input, Direction::new());
    assert_eq!(server.player_inputs, [Direction::new(), Direction::new()]);
    client1.send_input(&Direction { up: true, down: false });
    client2.send_input(&Direction { up: false, down: true });
    let state = LocalGamestate::with_serve(3, 4);
    server.send_gamestate(&state);
    handle_local(&mut client1, &mut client2, &mut server);
    assert_eq!(client1.receive_gamestate(), state);
    assert_eq!(client2.receive_gamestate(), state);
    assert_eq!(
        server.receive_inputs(),
        [Direction { up: true, down: false }, Direction { up: false, down: true }]
    );
    assert_eq!(server.gamestate, state);
    assert_eq!(client1.input, Direction { up: true, down: false });
}
