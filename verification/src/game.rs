//! What happens in one frame of play, and how the program moves from screen
//! to screen.

use crate::ball::Ball;
use crate::fps::FpsCounter;
use crate::graphics::{
    draw_fps, draw_initial, drawable, spec_draw_fps, spec_draw_initial, spec_drawable,
    spec_pieces_on_screen, spec_update_cache, spec_update_graphics, spec_update_text,
    update_graphics, GraphicsCache, GraphicsText,
};
use crate::input::{
    spec_goal_after, spec_menu_touch, spec_pressed, Input, TouchPoint, PLAYER_1_MAX_X,
    PLAYER_2_MIN_X,
};
use crate::lcd::{spec_blank, Framebuffer};
use crate::network::packets::{
    spec_new_gamestate, GamestatePacket, InputPacket, Serializable, WhoamiPacket,
    STATE_WON_PLAYER_1,
};
use crate::network::{
    spec_accept_gamestate, spec_accept_input, spec_is_client_hello, spec_is_server_stream,
    spec_payload, Client, EthClient, EthServer, Server,
};
use crate::physics::{
    advance_tick, lemma_new_is_playable, lemma_tick_keeps_playable, spec_advance, spec_playable,
    spec_tick,
};
use crate::racket::Racket;
use vstd::prelude::*;

verus! {

/// The screen the program is on.
#[derive(Debug, Copy, Clone, PartialEq, Eq)]
pub enum GameState {
    Splash,
    ChooseLocalOrNetwork,
    ChooseClientOrServer,
    ChooseOnlyLocal,
    ConnectToNetwork,
    GameRunningLocal,
    WaitForPartner,
    GameRunningNetwork,
}

/// The screen that follows an attempt to bring the link up: with a link the
/// board waits for its partner, without one only local play is offered.
pub fn connect_to_network(link_is_up: bool) -> (result: GameState)
    ensures
        result == if link_is_up {
            GameState::WaitForPartner
        } else {
            GameState::ChooseOnlyLocal
        },
{
    if link_is_up {
        GameState::WaitForPartner
    } else {
        GameState::ChooseOnlyLocal
    }
}

/// The datagram by which a board announces itself to its partner while it
/// waits: the host's handshake or the follower's.
pub fn announce(is_server: bool, server: &mut EthServer, client: &mut EthClient) -> (result: Vec<
    u8,
>)
    ensures
        *final(server) == *old(server),
        *final(client) == *old(client),
        result@ == (WhoamiPacket { is_server }).spec_serialize(),
{
    if is_server {
        server.send_whoami()
    } else {
        client.send_whoami()
    }
}

/// The screen after one frame of waiting for the partner.
pub open spec fn spec_wait_for_partner(is_server: bool, received: Option<Seq<u8>>) -> GameState {
    if is_server {
        if spec_is_client_hello(received) {
            GameState::GameRunningNetwork
        } else {
            GameState::WaitForPartner
        }
    } else {
        if spec_is_server_stream(received) {
            GameState::GameRunningNetwork
        } else {
            GameState::WaitForPartner
        }
    }
}

/// One frame of waiting for the partner, after the board has announced
/// itself. Play starts once a poll has shown the partner: the follower's
/// handshake for the host, a state for the follower.
pub fn wait_for_partner(
    is_server: bool,
    server: &mut EthServer,
    client: &mut EthClient,
    received: Option<Vec<u8>>,
) -> (result: GameState)
    ensures
        *final(server) == *old(server),
        *final(client) == *old(client),
        result == spec_wait_for_partner(is_server, spec_payload(received)),
{
    if is_server {
        if server.is_client_connected(received) {
            GameState::GameRunningNetwork
        } else {
            GameState::WaitForPartner
        }
    } else {
        if client.is_server_connected(received) {
            GameState::GameRunningNetwork
        } else {
            GameState::WaitForPartner
        }
    }
}

/// One tick of a match played on one board: both inputs are local. A state
/// whose successor cannot be represented stays as it is.
pub fn handle_local_calculations(
    local_gamestate: &mut GamestatePacket,
    local_input_1: &InputPacket,
    local_input_2: &InputPacket,
    total_time: usize,
)
    ensures
        *final(local_gamestate) == spec_advance(
            *old(local_gamestate),
            [*local_input_1, *local_input_2],
            total_time,
        ),
{
    let inputs = [*local_input_1, *local_input_2];
    advance_tick(local_gamestate, inputs, total_time);
}

/// One tick of the host: the follower's input is what a poll brought or,
/// failing that, the last one heard; the match advances, local input first;
/// the datagram returned carries the new state to the follower. A state
/// whose successor cannot be represented stays as it is, and is sent as it
/// is.
pub fn handle_network_server(
    server: &mut EthServer,
    received: Option<Vec<u8>>,
    local_gamestate: &mut GamestatePacket,
    local_input_1: &InputPacket,
    total_time: usize,
) -> (result: Vec<u8>)
    ensures
        final(server).player_input == spec_accept_input(
            old(server).player_input,
            spec_payload(received),
        ),
        *final(local_gamestate) == spec_advance(
            *old(local_gamestate),
            [*local_input_1, final(server).player_input],
            total_time,
        ),
        result@ == final(local_gamestate).spec_serialize(),
        result@.len() == GamestatePacket::spec_len(),
{
    let inputs = [*local_input_1, server.receive_input(received)];
    advance_tick(local_gamestate, inputs, total_time);
    proof {
        local_gamestate.lemma_round_trip();
    }
    server.send_gamestate(local_gamestate)
}

/// One tick of the follower: the state shown is what a poll brought or,
/// failing that, the last one heard; the datagram returned carries the local
/// input to the host.
pub fn handle_network_client(
    client: &mut EthClient,
    received: Option<Vec<u8>>,
    local_gamestate: &mut GamestatePacket,
    local_input_1: &InputPacket,
) -> (result: Vec<u8>)
    ensures
        final(client).gamestate == spec_accept_gamestate(
            old(client).gamestate,
            spec_payload(received),
        ),
        *final(local_gamestate) == final(client).gamestate,
        result@ == local_input_1.spec_serialize(),
{
    *local_gamestate = client.receive_gamestate(received);
    client.send_input(local_input_1)
}

/// A state that play can go on from can be drawn.
pub proof fn lemma_playable_is_drawable(gamestate: GamestatePacket)
    requires
        spec_playable(gamestate),
    ensures
        spec_drawable(gamestate),
{
}

/// The match is over and the winner's screen is shown.
pub open spec fn spec_is_won(gamestate: GamestatePacket) -> bool {
    gamestate.state >= STATE_WON_PLAYER_1
}

/// The picture a frame of play starts from: the field drawn anew on
/// entering the screen, else the picture as it is.
pub open spec fn spec_frame_start(
    just_entered_state: bool,
    pixels: Seq<u8>,
    rackets: [Racket; 2],
    ball: Ball,
) -> Seq<u8> {
    if just_entered_state {
        spec_draw_initial(spec_blank(0), rackets, ball)
    } else {
        pixels
    }
}

/// The match after a frame's tick and a look at the panel: a press on the
/// winner's screen starts a new match.
pub open spec fn spec_after_touch(
    ticked: GamestatePacket,
    restart_allowed: bool,
    touches: Seq<TouchPoint>,
    touch_last_frame: bool,
    total_time: usize,
) -> GamestatePacket {
    if restart_allowed && spec_is_won(ticked) && spec_pressed(
        spec_menu_touch(touches, touch_last_frame),
    ) {
        spec_new_gamestate(total_time)
    } else {
        ticked
    }
}

/// A paddle's goal after a frame's look at the panel: on the winner's
/// screen a press puts it back to the middle and nothing else moves it;
/// during play the touches between the columns `x_min` and `x_max` steer it.
pub open spec fn spec_goal_after_touch(
    ticked: GamestatePacket,
    restart_allowed: bool,
    current: i16,
    touches: Seq<TouchPoint>,
    touch_last_frame: bool,
    x_min: int,
    x_max: int,
) -> i16 {
    if restart_allowed && spec_is_won(ticked) {
        if spec_pressed(spec_menu_touch(touches, touch_last_frame)) {
            136i16
        } else {
            current
        }
    } else {
        spec_goal_after(current, touches, x_min, x_max)
    }
}

/// One frame of a match played by two players on one board: a tick of the
/// match, a look at the panel, and the picture brought up to date with the
/// frame rate over it. Returns the text to be written over the picture.
pub fn game_loop_local<F: Framebuffer>(
    just_entered_state: bool,
    framebuffer: &mut F,
    input: &mut Input,
    touches: &Vec<TouchPoint>,
    fps: &FpsCounter,
    rackets: &mut [Racket; 2],
    ball: &mut Ball,
    local_input_1: &mut InputPacket,
    local_input_2: &mut InputPacket,
    local_gamestate: &mut GamestatePacket,
    cache: &mut GraphicsCache,
    total_time: usize,
    delta_time: usize,
) -> (result: GraphicsText)
    requires
        old(framebuffer).spec_wf(),
        spec_pieces_on_screen(*old(rackets), *old(ball)),
        spec_playable(*old(local_gamestate)),
    ensures
        spec_playable(*final(local_gamestate)),
        *final(local_gamestate) == spec_after_touch(
            spec_tick(
                *old(local_gamestate),
                [*old(local_input_1), *old(local_input_2)],
                total_time,
            ),
            true,
            touches@,
            old(input).touch_last_frame,
            total_time,
        ),
        final(local_input_1).goal_y == spec_goal_after_touch(
            spec_tick(
                *old(local_gamestate),
                [*old(local_input_1), *old(local_input_2)],
                total_time,
            ),
            true,
            old(local_input_1).goal_y,
            touches@,
            old(input).touch_last_frame,
            0,
            PLAYER_1_MAX_X as int,
        ),
        final(local_input_2).goal_y == spec_goal_after_touch(
            spec_tick(
                *old(local_gamestate),
                [*old(local_input_1), *old(local_input_2)],
                total_time,
            ),
            true,
            old(local_input_2).goal_y,
            touches@,
            old(input).touch_last_frame,
            PLAYER_2_MIN_X as int,
            u16::MAX as int,
        ),
        final(input).touch_last_frame == if spec_is_won(
            spec_tick(
                *old(local_gamestate),
                [*old(local_input_1), *old(local_input_2)],
                total_time,
            ),
        ) {
            touches@.len() > 0
        } else {
            old(input).touch_last_frame
        },
        final(framebuffer).spec_wf(),
        final(framebuffer).spec_shown() == old(framebuffer).spec_shown(),
        final(framebuffer).spec_pixels() == spec_draw_fps(
            spec_update_graphics(
                spec_frame_start(
                    just_entered_state,
                    old(framebuffer).spec_pixels(),
                    *old(rackets),
                    *old(ball),
                ),
                *final(local_gamestate),
                *old(rackets),
                *old(ball),
                *old(cache),
                total_time,
            ),
            fps.last_fps as int,
        ),
        *final(cache) == spec_update_cache(*final(local_gamestate), *old(cache), total_time),
        result == spec_update_text(*final(local_gamestate), *old(cache), total_time),
        spec_pieces_on_screen(*final(rackets), *final(ball)),
{
    if just_entered_state {
        framebuffer.clear();
        draw_initial(framebuffer, rackets, ball);
    }
    proof {
        lemma_tick_keeps_playable(
            *local_gamestate,
            [*local_input_1, *local_input_2],
            total_time,
        );
        lemma_new_is_playable(total_time);
    }
    handle_local_calculations(local_gamestate, local_input_1, local_input_2, total_time);

    // handle input
    if local_gamestate.state >= STATE_WON_PLAYER_1 {
        let touch = input.handle_menu(touches);
        if touch.is_down && !touch.any_touch_last_frame {
            *local_gamestate = GamestatePacket::new(total_time);
            *local_input_1 = InputPacket::new();
            *local_input_2 = InputPacket::new();
        }
    } else {
        input.evaluate_touch_two_players(touches, local_input_1, local_input_2);
    }

    // move rackets and ball
    let text = update_graphics(
        framebuffer,
        local_gamestate,
        rackets,
        ball,
        cache,
        total_time,
        delta_time,
    );

    draw_fps(framebuffer, fps);
    text
}

/// One frame of a match played over the network.
///
/// The host ticks the match with its own input and the follower's, and may
/// start a new match from the winner's screen; the follower shows the state
/// the host sent last. Either way the picture is brought up to date, but a
/// state whose ball or paddles lie off the screen is not drawn. Returns the
/// datagram to send to the partner and the text to be written over the
/// picture.
pub fn game_loop_network<F: Framebuffer>(
    just_entered_state: bool,
    framebuffer: &mut F,
    input: &mut Input,
    touches: &Vec<TouchPoint>,
    fps: &FpsCounter,
    rackets: &mut [Racket; 2],
    ball: &mut Ball,
    client: &mut EthClient,
    server: &mut EthServer,
    local_input_1: &mut InputPacket,
    local_gamestate: &mut GamestatePacket,
    is_server: bool,
    received: Option<Vec<u8>>,
    cache: &mut GraphicsCache,
    total_time: usize,
    delta_time: usize,
) -> (result: (Vec<u8>, GraphicsText))
    requires
        old(framebuffer).spec_wf(),
        spec_pieces_on_screen(*old(rackets), *old(ball)),
        is_server ==> spec_playable(*old(local_gamestate)),
    ensures
        is_server ==> {
            &&& spec_playable(*final(local_gamestate))
            &&& *final(client) == *old(client)
            &&& final(server).player_input == spec_accept_input(
                old(server).player_input,
                spec_payload(received),
            )
            &&& *final(local_gamestate) == spec_after_touch(
                spec_tick(
                    *old(local_gamestate),
                    [*old(local_input_1), final(server).player_input],
                    total_time,
                ),
                true,
                touches@,
                old(input).touch_last_frame,
                total_time,
            )
            &&& result.0@ == spec_tick(
                *old(local_gamestate),
                [*old(local_input_1), final(server).player_input],
                total_time,
            ).spec_serialize()
            &&& final(local_input_1).goal_y == spec_goal_after_touch(
                spec_tick(
                    *old(local_gamestate),
                    [*old(local_input_1), final(server).player_input],
                    total_time,
                ),
                true,
                old(local_input_1).goal_y,
                touches@,
                old(input).touch_last_frame,
                0,
                u16::MAX as int,
            )
            &&& final(input).touch_last_frame == if spec_is_won(
                spec_tick(
                    *old(local_gamestate),
                    [*old(local_input_1), final(server).player_input],
                    total_time,
                ),
            ) {
                touches@.len() > 0
            } else {
                old(input).touch_last_frame
            }
        },
        !is_server ==> {
            &&& *final(server) == *old(server)
            &&& final(client).gamestate == spec_accept_gamestate(
                old(client).gamestate,
                spec_payload(received),
            )
            &&& *final(local_gamestate) == final(client).gamestate
            &&& result.0@ == old(local_input_1).spec_serialize()
            &&& final(local_input_1).goal_y == spec_goal_after(
                old(local_input_1).goal_y,
                touches@,
                0,
                u16::MAX as int,
            )
            &&& final(input).touch_last_frame == old(input).touch_last_frame
        },
        final(framebuffer).spec_wf(),
        final(framebuffer).spec_shown() == old(framebuffer).spec_shown(),
        spec_pieces_on_screen(*final(rackets), *final(ball)),
        spec_drawable(*final(local_gamestate)) ==> {
            &&& final(framebuffer).spec_pixels() == spec_draw_fps(
                spec_update_graphics(
                    spec_frame_start(
                        just_entered_state,
                        old(framebuffer).spec_pixels(),
                        *old(rackets),
                        *old(ball),
                    ),
                    *final(local_gamestate),
                    *old(rackets),
                    *old(ball),
                    *old(cache),
                    total_time,
                ),
                fps.last_fps as int,
            )
            &&& *final(cache) == spec_update_cache(*final(local_gamestate), *old(cache), total_time)
            &&& result.1 == spec_update_text(*final(local_gamestate), *old(cache), total_time)
        },
        !spec_drawable(*final(local_gamestate)) ==> {
            &&& final(framebuffer).spec_pixels() == spec_draw_fps(
                spec_frame_start(
                    just_entered_state,
                    old(framebuffer).spec_pixels(),
                    *old(rackets),
                    *old(ball),
                ),
                fps.last_fps as int,
            )
            &&& *final(cache) == *old(cache)
            &&& *final(rackets) == *old(rackets)
            &&& *final(ball) == *old(ball)
            &&& result.1 == (GraphicsText { banner: None, score_1: None, score_2: None })
        },
{
    if just_entered_state {
        framebuffer.clear();
        draw_initial(framebuffer, rackets, ball);
    }
    let outgoing = if is_server {
        proof {
            lemma_new_is_playable(total_time);
            lemma_tick_keeps_playable(
                *local_gamestate,
                [
                    *local_input_1,
                    spec_accept_input(server.player_input, spec_payload(received)),
                ],
                total_time,
            );
        }
        handle_network_server(server, received, local_gamestate, local_input_1, total_time)
    } else {
        handle_network_client(client, received, local_gamestate, local_input_1)
    };

    if is_server && local_gamestate.state >= STATE_WON_PLAYER_1 {
        let touch = input.handle_menu(touches);
        if touch.is_down && !touch.any_touch_last_frame {
            *local_gamestate = GamestatePacket::new(total_time);
            *local_input_1 = InputPacket::new();
        }
    } else {
        // handle input
        input.evaluate_touch_one_player(touches, local_input_1);
    }
    // move rackets and ball
    let text = if drawable(local_gamestate) {
        update_graphics(framebuffer, local_gamestate, rackets, ball, cache, total_time, delta_time)
    } else {
        GraphicsText { banner: None, score_1: None, score_2: None }
    };

    draw_fps(framebuffer, fps);
    (outgoing, text)
}

} // verus!
