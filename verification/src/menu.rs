//! The menus: which screen a touch leads to.
//!
//! A menu wipes the picture when it is entered, where it has to; its
//! labels are written by the caller. It acts on a press, that is a touch
//! that was not there a frame ago, and looks at the half of the panel the
//! press fell in.

use crate::game::GameState;
use crate::input::{spec_menu_touch, spec_pressed, Input, Touch, TouchPoint};
use crate::lcd::{spec_blank, Framebuffer, WIDTH};
use vstd::prelude::*;

verus! {

/// The screen after the first menu: a press on the left starts a local
/// match, one on the right asks which role to play on the network.
pub open spec fn spec_choose_local_network(touch: Touch) -> GameState {
    if spec_pressed(touch) {
        if touch.x < WIDTH / 2 {
            GameState::GameRunningLocal
        } else {
            GameState::ChooseClientOrServer
        }
    } else {
        GameState::ChooseLocalOrNetwork
    }
}

/// The screen after the menu shown when there is no network: a press on the
/// left starts a local match.
pub open spec fn spec_choose_only_local(touch: Touch) -> GameState {
    if spec_pressed(touch) && touch.x < WIDTH / 2 {
        GameState::GameRunningLocal
    } else {
        GameState::ChooseOnlyLocal
    }
}

/// Local play or network play.
pub fn choose_local_network<F: Framebuffer>(
    just_entered: bool,
    framebuffer: &mut F,
    input: &mut Input,
    touches: &Vec<TouchPoint>,
) -> (result: GameState)
    requires
        old(framebuffer).spec_wf(),
    ensures
        final(framebuffer).spec_wf(),
        final(framebuffer).spec_pixels() == if just_entered {
            spec_blank(0)
        } else {
            old(framebuffer).spec_pixels()
        },
        final(framebuffer).spec_shown() == old(framebuffer).spec_shown(),
        final(input).touch_last_frame == (touches@.len() > 0),
        result == spec_choose_local_network(
            spec_menu_touch(touches@, old(input).touch_last_frame),
        ),
{
    if just_entered {
        framebuffer.clear();
    }
    let touch = input.handle_menu(touches);

    if touch.is_down && !touch.any_touch_last_frame {
        if touch.x < WIDTH as u16 / 2 {
            return GameState::GameRunningLocal;
        } else {
            return GameState::ChooseClientOrServer;
        }
    }
    GameState::ChooseLocalOrNetwork
}

/// Follower or host: a press on the left picks the follower, one on the
/// right the host, and either goes on to bring the link up.
pub fn choose_client_server<F: Framebuffer>(
    just_entered: bool,
    framebuffer: &mut F,
    input: &mut Input,
    touches: &Vec<TouchPoint>,
    is_server: &mut bool,
) -> (result: GameState)
    requires
        old(framebuffer).spec_wf(),
    ensures
        final(framebuffer).spec_wf(),
        final(framebuffer).spec_pixels() == if just_entered {
            spec_blank(0)
        } else {
            old(framebuffer).spec_pixels()
        },
        final(framebuffer).spec_shown() == old(framebuffer).spec_shown(),
        final(input).touch_last_frame == (touches@.len() > 0),
        spec_pressed(spec_menu_touch(touches@, old(input).touch_last_frame)) ==> {
            &&& result == GameState::ConnectToNetwork
            &&& *final(is_server) == (touches@[0].x >= WIDTH / 2)
        },
        !spec_pressed(spec_menu_touch(touches@, old(input).touch_last_frame)) ==> {
            &&& result == GameState::ChooseClientOrServer
            &&& *final(is_server) == *old(is_server)
        },
{
    if just_entered {
        framebuffer.clear();
    }
    let touch = input.handle_menu(touches);

    if touch.is_down && !touch.any_touch_last_frame {
        if touch.x < WIDTH as u16 / 2 {
            *is_server = false;
            return GameState::ConnectToNetwork;
        } else {
            *is_server = true;
            return GameState::ConnectToNetwork;
        }
    }
    GameState::ChooseClientOrServer
}

/// Local play only. The picture is left alone: it holds the message that
/// says why there is no network.
pub fn choose_only_local(input: &mut Input, touches: &Vec<TouchPoint>) -> (result: GameState)
    ensures
        final(input).touch_last_frame == (touches@.len() > 0),
        result == spec_choose_only_local(spec_menu_touch(touches@, old(input).touch_last_frame)),
{
    let touch = input.handle_menu(touches);

    if touch.is_down && !touch.any_touch_last_frame {
        if touch.x < WIDTH as u16 / 2 {
            return GameState::GameRunningLocal;
        }
    }
    GameState::ChooseOnlyLocal
}

} // verus!
