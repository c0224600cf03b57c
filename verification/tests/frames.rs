use pong::ball::Ball;
use pong::fps;
use pong::game::{game_loop_local, game_loop_network};
use pong::graphics::{draw_fps, draw_initial, GraphicsCache, GraphicsText};
use pong::input::{Input, TouchPoint};
use pong::lcd::FramebufferL8;
use pong::network::packets::{
    BallPacket, GamestatePacket, InputPacket, Serializable, STATE_RUNNING, STATE_WON_PLAYER_2,
};
use pong::network::{EthClient, EthServer};
use pong::racket::Racket;

struct Board {
    fb: FramebufferL8,
    input: Input,
    fps: fps::FpsCounter,
    rackets: [Racket; 2],
    ball: Ball,
    cache: GraphicsCache,
    client: EthClient,
    server: EthServer,
    local_1: InputPacket,
    local_2: InputPacket,
    state: GamestatePacket,
}

fn board() -> Board {
    Board {
        fb: FramebufferL8::new(),
        input: Input::new(),
        fps: fps::init(0),
        rackets: [Racket::new(0), Racket::new(1)],
        ball: Ball::new(),
        cache: GraphicsCache::new(),
        client: EthClient::new(),
        server: EthServer::new(),
        local_1: InputPacket::new(),
        local_2: InputPacket::new(),
        state: GamestatePacket::new(0),
    }
}

fn local_frame(b: &mut Board, entered: bool, touches: &Vec<TouchPoint>, time: usize) -> GraphicsText {
    game_loop_local(
        entered,
        &mut b.fb,
        &mut b.input,
        touches,
        &b.fps,
        &mut b.rackets,
        &mut b.ball,
        &mut b.local_1,
        &mut b.local_2,
        &mut b.state,
        &mut b.cache,
        time,
        16,
    )
}

fn network_frame(
    b: &mut Board,
    is_server: bool,
    received: Option<Vec<u8>>,
    touches: &Vec<TouchPoint>,
    time: usize,
) -> (Vec<u8>, GraphicsText) {
    game_loop_network(
        false,
        &mut b.fb,
        &mut b.input,
        touches,
        &b.fps,
        &mut b.rackets,
        &mut b.ball,
        &mut b.client,
        &mut b.server,
        &mut b.local_1,
        &mut b.state,
        is_server,
        received,
        &mut b.cache,
        time,
        16,
    )
}

#[test]
fn local_frame_ticks_reads_touches_and_draws() {
    let mut b = board();
    let touches = vec![TouchPoint { x: 10, y: 50 }, TouchPoint { x: 400, y: 200 }];
    let text = local_frame(&mut b, true, &touches, 0);
    // the tick used the inputs as they were before the touches
    assert_eq!(b.state.rackets[0].y, 136);
    assert_eq!(b.state.ball, BallPacket { x: 237, y: 133, x_vel: -3, y_vel: -3 });
    assert_eq!((b.local_1.goal_y, b.local_2.goal_y), (50, 200));
    assert_eq!(text, GraphicsText { banner: None, score_1: Some(0), score_2: Some(0) });
    assert_eq!((b.ball.get_xpos_centre(), b.ball.get_ypos_centre()), (237, 133));
    assert_eq!(b.rackets[0].get_ypos_centre(), 136);
    let text = local_frame(&mut b, false, &vec![], 1);
    assert_eq!(b.state.rackets[0].y, 128);
    assert_eq!(b.state.rackets[1].y, 144);
    assert_eq!(text, GraphicsText { banner: None, score_1: None, score_2: None });
    assert_eq!(b.rackets[0].get_ypos_centre(), 128);
    assert_eq!(b.rackets[1].get_ypos_centre(), 144);
}

#[test]
fn local_frame_picture_is_the_field_with_the_frame_rate() {
    let mut b = board();
    b.local_1 = InputPacket { goal_y: 136 };
    b.local_2 = InputPacket { goal_y: 136 };
    b.cache = GraphicsCache { score: [0, 0], last_score_redraw: 0, last_state: 0 };
    b.fps.last_fps = 60;
    local_frame(&mut b, true, &vec![], 0);
    let mut expected = FramebufferL8::new();
    let mut rackets = [Racket::new(0), Racket::new(1)];
    rackets[0].set_ypos_centre(136);
    rackets[1].set_ypos_centre(136);
    let mut ball = Ball::new();
    ball.set_xpos_centre(237);
    ball.set_ypos_centre(133);
    draw_initial(&mut expected, &rackets, &ball);
    draw_fps(&mut expected, &b.fps);
    assert_eq!(b.fb.framebuffer, expected.framebuffer);
}

#[test]
fn press_on_the_winners_screen_starts_a_new_match() {
    let mut b = board();
    b.state.score = [0, 8];
    b.state.ball = BallPacket { x: 12, y: 100, x_vel: -3, y_vel: 3 };
    b.local_1 = InputPacket { goal_y: 50 };
    let text = local_frame(&mut b, false, &vec![], 7);
    assert_eq!(b.state.state, STATE_WON_PLAYER_2);
    assert_eq!(b.state.score, [0, 9]);
    assert_eq!(text.banner, Some(2));
    assert_eq!(text.score_2, Some(9));
    assert!(!b.input.touch_last_frame);
    // a touch on the winner's screen does not steer
    let text = local_frame(&mut b, false, &vec![TouchPoint { x: 10, y: 222 }], 21);
    assert_eq!(b.state, GamestatePacket::new(21));
    assert_eq!(b.local_1.goal_y, 136);
    assert_eq!(b.local_2.goal_y, 136);
    assert_eq!(b.state.state, STATE_RUNNING);
    assert_eq!(text, GraphicsText { banner: None, score_1: Some(0), score_2: Some(0) });
    assert!(b.input.touch_last_frame);
}

#[test]
fn held_touch_does_not_restart() {
    let mut b = board();
    b.state.score = [0, 9];
    b.state.state = STATE_WON_PLAYER_2;
    b.input.touch_last_frame = true;
    let before = b.state;
    local_frame(&mut b, false, &vec![TouchPoint { x: 10, y: 222 }], 21);
    assert_eq!(b.state, before);
    local_frame(&mut b, false, &vec![], 22);
    assert_eq!(b.state, before);
    local_frame(&mut b, false, &vec![TouchPoint { x: 10, y: 222 }], 23);
    assert_eq!(b.state, GamestatePacket::new(23));
}

#[test]
fn host_frame_sends_the_ticked_state() {
    let mut b = board();
    b.local_1 = InputPacket { goal_y: 50 };
    let (out, text) = network_frame(
        &mut b,
        true,
        Some(InputPacket { goal_y: 200 }.serialize()),
        &vec![TouchPoint { x: 300, y: 99 }],
        0,
    );
    assert_eq!(b.server.player_input.goal_y, 200);
    assert_eq!(b.state.rackets[0].y, 128);
    assert_eq!(b.state.rackets[1].y, 144);
    assert_eq!(out.len(), 19);
    assert_eq!(GamestatePacket::deserialize(&out), b.state);
    assert_eq!(b.local_1.goal_y, 99);
    assert_eq!(text, GraphicsText { banner: None, score_1: Some(0), score_2: Some(0) });
    assert_eq!(b.client.gamestate, GamestatePacket::new(0));
}

#[test]
fn host_restart_is_sent_a_frame_later() {
    let mut b = board();
    b.state.score = [0, 9];
    b.state.state = STATE_WON_PLAYER_2;
    let won = b.state;
    let (out, _) = network_frame(&mut b, true, None, &vec![TouchPoint { x: 1, y: 1 }], 5);
    assert_eq!(out, won.serialize());
    assert_eq!(b.state, GamestatePacket::new(5));
    assert_eq!(b.local_1.goal_y, 136);
}

#[test]
fn follower_frame_shows_what_it_received() {
    let mut b = board();
    let mut sent = GamestatePacket::new(0);
    sent.ball = BallPacket { x: 100, y: 50, x_vel: 3, y_vel: 3 };
    sent.rackets[0].y = 40;
    sent.score = [2, 1];
    let (out, text) = network_frame(
        &mut b,
        false,
        Some(sent.serialize()),
        &vec![TouchPoint { x: 5, y: 66 }],
        0,
    );
    assert_eq!(out, InputPacket { goal_y: 136 }.serialize());
    assert_eq!(b.local_1.goal_y, 66);
    assert_eq!(b.state, sent);
    assert_eq!(b.client.gamestate, sent);
    assert_eq!((b.ball.get_xpos_centre(), b.ball.get_ypos_centre()), (100, 50));
    assert_eq!(b.rackets[0].get_ypos_centre(), 40);
    assert_eq!(text, GraphicsText { banner: None, score_1: Some(2), score_2: Some(1) });
    assert_eq!(b.server.player_input.goal_y, 136);
}

#[test]
fn follower_picture_freezes_through_silence() {
    let mut b = board();
    let mut sent = GamestatePacket::new(0);
    sent.ball = BallPacket { x: 100, y: 50, x_vel: 3, y_vel: 3 };
    network_frame(&mut b, false, Some(sent.serialize()), &vec![], 0);
    let picture = b.fb.framebuffer.clone();
    let shown = b.state.serialize();
    for tick in 1..20 {
        let (out, text) = network_frame(&mut b, false, None, &vec![], tick);
        assert_eq!(b.state.serialize(), shown);
        assert_eq!(b.fb.framebuffer, picture);
        assert_eq!(out, vec![0x00, 0x88]);
        assert_eq!(text, GraphicsText { banner: None, score_1: None, score_2: None });
    }
}

#[test]
fn follower_does_not_draw_a_state_off_the_screen() {
    let mut b = board();
    let mut sent = GamestatePacket::new(0);
    sent.ball = BallPacket { x: -500, y: 50, x_vel: 3, y_vel: 3 };
    sent.score = [4, 4];
    let cache = b.cache;
    let (_, text) = network_frame(&mut b, false, Some(sent.serialize()), &vec![], 0);
    assert_eq!(b.state, sent);
    assert_eq!(text, GraphicsText { banner: None, score_1: None, score_2: None });
    assert_eq!(b.cache, cache);
    assert_eq!((b.ball.get_xpos_centre(), b.ball.get_ypos_centre()), (239, 135));
    let mut expected = FramebufferL8::new();
    draw_fps(&mut expected, &b.fps);
    assert_eq!(b.fb.framebuffer, expected.framebuffer);
}

#[test]
fn follower_tolerates_any_state_bytes() {
    let mut b = board();
    for fill in [0u8, 1, 0x7f, 0x80, 0xff] {
        network_frame(&mut b, false, Some(vec![fill; 19]), &vec![], 0);
        assert_eq!(b.state.serialize(), vec![fill; 19]);
    }
}
