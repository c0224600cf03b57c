//! Two players on one board, as a loop-back: each player is a client, the
//! match is a server, and a hand-over once a frame takes the place of the
//! link. Inputs are directions here, not goals.

use crate::network::packets::{BallPacket, RacketPacket};
use vstd::prelude::*;

verus! {

/// The state of a match as the loop-back hands it over.
#[derive(Debug, Copy, Clone, PartialEq, Eq)]
pub struct GamestatePacket {
    pub rackets: [RacketPacket; 2],
    pub ball: BallPacket,
    pub score: [u8; 2],
}

/// Which way a player pushes.
#[derive(Debug, Copy, Clone, PartialEq, Eq)]
pub struct InputPacket {
    pub up: bool,
    pub down: bool,
}

/// The largest serve speed, exclusive, along each axis.
pub const SERVE_SPEED_LIMIT: u8 = 20;

/// The opening position with the serve made of two bytes: each velocity is
/// its byte brought below `SERVE_SPEED_LIMIT`.
pub open spec fn spec_opening(x_byte: u8, y_byte: u8) -> GamestatePacket {
    GamestatePacket {
        rackets: [RacketPacket { x: 0, y: 100 }, RacketPacket { x: 400, y: 100 }],
        ball: BallPacket {
            x: 239,
            y: 135,
            x_vel: (x_byte % SERVE_SPEED_LIMIT) as i16,
            y_vel: (y_byte % SERVE_SPEED_LIMIT) as i16,
        },
        score: [0u8, 0u8],
    }
}

/// `rand::random::<u8>()`: a byte drawn from the thread's random number
/// generator. Nothing is claimed of the byte.
#[verifier::external_body]
fn random_byte() -> (result: u8) {
    rand::random::<u8>()
}

impl GamestatePacket {
    /// The opening position for a serve made of two given bytes.
    pub fn with_serve(x_byte: u8, y_byte: u8) -> (result: GamestatePacket)
        ensures
            result == spec_opening(x_byte, y_byte),
    {
        GamestatePacket {
            rackets: [RacketPacket { x: 0, y: 100 }, RacketPacket { x: 400, y: 100 }],
            ball: BallPacket {
                x: 239,
                y: 135,
                x_vel: (x_byte % SERVE_SPEED_LIMIT) as i16,
                y_vel: (y_byte % SERVE_SPEED_LIMIT) as i16,
            },
            score: [0, 0],
        }
    }

    /// The opening position with a serve drawn at random.
    pub fn new() -> (result: GamestatePacket)
        ensures
            exists|x_byte: u8, y_byte: u8| result == spec_opening(x_byte, y_byte),
    {
        let x_byte = random_byte();
        let y_byte = random_byte();
        GamestatePacket::with_serve(x_byte, y_byte)
    }
}

impl InputPacket {
    /// Nobody pushes.
    pub fn new() -> (result: InputPacket)
        ensures
            !result.up,
            !result.down,
    {
        InputPacket { up: false, down: false }
    }

    /// The step along the vertical axis that the input asks for: -1 for up,
    /// 1 for down, 0 where neither or both are pushed.
    pub open spec fn spec_says_move_up(&self) -> int {
        if self.up == self.down {
            0
        } else if self.up {
            -1
        } else {
            1
        }
    }

    pub fn says_move_up(&self) -> (result: i8)
        ensures
            result == self.spec_says_move_up(),
    {
        if self.up != self.down {
            if self.up {
                -1
            } else {
                1
            }
        } else {
            0
        }
    }
}

/// One player's end of the loop-back.
#[derive(Debug, Copy, Clone, PartialEq, Eq)]
pub struct LocalClient {
    pub gamestate: GamestatePacket,
    pub input: InputPacket,
}

impl LocalClient {
    pub fn new() -> (result: LocalClient)
        ensures
            exists|x_byte: u8, y_byte: u8| result.gamestate == spec_opening(x_byte, y_byte),
            result.input == (InputPacket { up: false, down: false }),
    {
        LocalClient { gamestate: GamestatePacket::new(), input: InputPacket::new() }
    }

    /// Leaves the input for the next hand-over.
    pub fn send_input(&mut self, input: &InputPacket)
        ensures
            final(self).input == *input,
            final(self).gamestate == old(self).gamestate,
    {
        self.input = *input;
    }

    /// The state as of the last hand-over.
    pub fn receive_gamestate(&self) -> (result: GamestatePacket)
        ensures
            result == self.gamestate,
    {
        return self.gamestate;
    }
}

/// The match's end of the loop-back.
#[derive(Debug, Copy, Clone, PartialEq, Eq)]
pub struct LocalServer {
    pub gamestate: GamestatePacket,
    pub player_inputs: [InputPacket; 2],
}

impl LocalServer {
    pub fn new() -> (result: LocalServer)
        ensures
            exists|x_byte: u8, y_byte: u8| result.gamestate == spec_opening(x_byte, y_byte),
            result.player_inputs[0] == (InputPacket { up: false, down: false }),
            result.player_inputs[1] == (InputPacket { up: false, down: false }),
    {
        LocalServer {
            gamestate: GamestatePacket::new(),
            player_inputs: [InputPacket::new(), InputPacket::new()],
        }
    }

    /// The inputs as of the last hand-over.
    pub fn receive_inputs(&self) -> (result: [InputPacket; 2])
        ensures
            result == self.player_inputs,
    {
        return self.player_inputs;
    }

    /// Leaves the state for the next hand-over.
    pub fn send_gamestate(&mut self, gamestate: &GamestatePacket)
        ensures
            final(self).gamestate == *gamestate,
            final(self).player_inputs == old(self).player_inputs,
    {
        self.gamestate = *gamestate;
    }
}

/// The hand-over: both clients get the server's state, the server gets both
/// clients' inputs.
pub fn handle_local(client1: &mut LocalClient, client2: &mut LocalClient, server: &mut LocalServer)
    ensures
        final(client1).gamestate == old(server).gamestate,
        final(client2).gamestate == old(server).gamestate,
        final(client1).input == old(client1).input,
        final(client2).input == old(client2).input,
        final(server).gamestate == old(server).gamestate,
        final(server).player_inputs[0] == old(client1).input,
        final(server).player_inputs[1] == old(client2).input,
{
    client1.gamestate = server.gamestate;
    client2.gamestate = server.gamestate;
    server.player_inputs = [client1.input, client2.input];
}

} // verus!
