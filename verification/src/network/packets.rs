//! Fixed-length binary records exchanged between the two boards.
//!
//! Every record has one encoding of a fixed length. Signed 16-bit fields are
//! written big-endian in two's complement; a record is told from the others
//! by its length alone.

use crate::lcd::{HEIGHT, WIDTH};
use crate::racket::RACKET_WIDTH;
use vstd::prelude::*;

verus! {

/// The match is being played.
pub const STATE_RUNNING: u8 = 0;

/// The left player has won.
pub const STATE_WON_PLAYER_1: u8 = 100;

/// The right player has won.
pub const STATE_WON_PLAYER_2: u8 = 101;

/// The authoritative snapshot of a match.
#[derive(Debug, Copy, Clone, PartialEq, Eq)]
pub struct GamestatePacket {
    pub rackets: [RacketPacket; 2],
    pub ball: BallPacket,
    pub score: [u8; 2],
    pub state: u8,
}

/// A paddle, by its centre.
#[derive(Debug, Copy, Clone, PartialEq, Eq)]
pub struct RacketPacket {
    pub x: i16,
    pub y: i16,
}

/// The ball, by its centre and its velocity in pixels per tick.
#[derive(Debug, Copy, Clone, PartialEq, Eq)]
pub struct BallPacket {
    pub x: i16,
    pub y: i16,
    pub x_vel: i16,
    pub y_vel: i16,
}

/// The vertical position a player asks their paddle to move to.
#[derive(Debug, Copy, Clone, PartialEq, Eq)]
pub struct InputPacket {
    pub goal_y: i16,
}

/// The handshake record: which role the sender plays.
#[derive(Debug, Copy, Clone, PartialEq, Eq)]
pub struct WhoamiPacket {
    pub is_server: bool,
}

/// The serve velocity for a seed: entry `seed mod 16` of a fixed table.
pub open spec fn spec_random_vel(total_time: usize) -> (i16, i16) {
    let index = total_time as int % 16;
    if index == 0 || index == 12 {
        (-3i16, -3i16)
    } else if index == 1 || index == 3 || index == 13 || index == 15 {
        (-3i16, 3i16)
    } else if index == 2 || index == 14 {
        (3i16, -3i16)
    } else if index == 4 {
        (-4i16, -2i16)
    } else if index == 5 || index == 7 {
        (-4i16, 2i16)
    } else if index == 6 {
        (4i16, -2i16)
    } else if index == 8 {
        (-2i16, -4i16)
    } else if index == 9 || index == 11 {
        (-2i16, 4i16)
    } else {
        (2i16, -4i16)
    }
}

/// The ball after a serve: at the centre of the field, with the serve
/// velocity for the seed.
pub open spec fn spec_reset_ball(total_time: usize) -> BallPacket {
    BallPacket {
        x: (WIDTH / 2) as i16,
        y: (HEIGHT / 2) as i16,
        x_vel: spec_random_vel(total_time).0,
        y_vel: spec_random_vel(total_time).1,
    }
}

/// The state at the start of a match.
pub open spec fn spec_new_gamestate(total_time: usize) -> GamestatePacket {
    GamestatePacket {
        rackets: [
            RacketPacket { x: RACKET_WIDTH as i16, y: (HEIGHT / 2) as i16 },
            RacketPacket { x: (WIDTH - RACKET_WIDTH) as i16, y: (HEIGHT / 2) as i16 },
        ],
        ball: BallPacket {
            x: (WIDTH / 2) as i16,
            y: (HEIGHT / 2) as i16,
            x_vel: spec_random_vel(total_time).0,
            y_vel: spec_random_vel(total_time).1,
        },
        score: [0u8, 0u8],
        state: STATE_RUNNING,
    }
}

impl GamestatePacket {
    /// A fresh match: paddles and ball centred, no points, the serve chosen
    /// by `total_time`.
    pub fn new(total_time: usize) -> (result: GamestatePacket)
        ensures
            result == spec_new_gamestate(total_time),
    {
        let (vel_x, vel_y) = random_vel(total_time);
        GamestatePacket {
            rackets: [
                RacketPacket { x: RACKET_WIDTH as i16, y: (HEIGHT / 2) as i16 },
                RacketPacket { x: WIDTH as i16 - RACKET_WIDTH as i16, y: (HEIGHT / 2) as i16 },
            ],
            ball: BallPacket {
                x: (WIDTH / 2) as i16,
                y: (HEIGHT / 2) as i16,
                x_vel: vel_x,
                y_vel: vel_y,
            },
            score: [0, 0],
            state: 0,
        }
    }
}

impl BallPacket {
    /// Serves the ball again from the centre of the field.
    pub fn reset(&mut self, total_time: usize)
        ensures
            *final(self) == spec_reset_ball(total_time),
    {
        let (vel_x, vel_y) = random_vel(total_time);
        self.x = (WIDTH / 2) as i16;
        self.y = (HEIGHT / 2) as i16;
        self.x_vel = vel_x;
        self.y_vel = vel_y;
    }
}

impl InputPacket {
    /// An input that asks for the middle of the field.
    pub fn new() -> (result: InputPacket)
        ensures
            result.goal_y == 136,
    {
        InputPacket { goal_y: 272 / 2 }
    }
}

impl WhoamiPacket {
    /// The handshake of a host or of a follower.
    pub fn new(is_server: bool) -> (result: WhoamiPacket)
        ensures
            result.is_server == is_server,
    {
        WhoamiPacket { is_server: is_server }
    }
}

/// The high byte of the two's-complement encoding of `v`.
pub open spec fn spec_upper_byte(v: i16) -> u8 {
    (((v as int + 0x1_0000) % 0x1_0000) / 0x100) as u8
}

/// The low byte of the two's-complement encoding of `v`.
pub open spec fn spec_lower_byte(v: i16) -> u8 {
    (((v as int + 0x1_0000) % 0x1_0000) % 0x100) as u8
}

/// The signed 16-bit value whose two's-complement encoding is `upper`, `lower`.
pub open spec fn spec_merge(upper: u8, lower: u8) -> i16 {
    let unsigned: int = upper as int * 0x100 + lower as int;
    if unsigned < 0x8000 {
        unsigned as i16
    } else {
        (unsigned - 0x1_0000) as i16
    }
}

/// The high byte of a value on the wire.
pub fn upper_byte(input: i16) -> (result: u8)
    ensures
        result == spec_upper_byte(input),
{
    let shifted: i16 = (input >> 8) & 0xff;
    assert(0 <= shifted < 0x100 && shifted as int == ((input as int + 0x1_0000) % 0x1_0000)
        / 0x100) by (bit_vector)
        requires
            shifted == (input >> 8) & 0xff,
    ;
    shifted as u8
}

/// The low byte of a value on the wire.
pub fn lower_byte(input: i16) -> (result: u8)
    ensures
        result == spec_lower_byte(input),
{
    let masked: i16 = input & 0xff;
    assert(0 <= masked < 0x100 && masked as int == ((input as int + 0x1_0000) % 0x1_0000)
        % 0x100) by (bit_vector)
        requires
            masked == input & 0xff,
    ;
    masked as u8
}

/// The value that two bytes on the wire stand for.
pub fn merge(upper: u8, lower: u8) -> (result: i16)
    ensures
        result == spec_merge(upper, lower),
{
    let high: i16 = upper as i16;
    let low: i16 = lower as i16;
    let merged: i16 = high << 8 | low;
    assert(merged as int == if upper as int * 0x100 + lower as int >= 0x8000 {
        upper as int * 0x100 + lower as int - 0x1_0000
    } else {
        upper as int * 0x100 + lower as int
    }) by (bit_vector)
        requires
            high == upper as i16,
            low == lower as i16,
            merged == high << 8 | low,
    ;
    merged
}

/// Splitting a value into its two bytes and merging them gives the value back.
pub proof fn lemma_merge_bytes(v: i16)
    ensures
        spec_merge(spec_upper_byte(v), spec_lower_byte(v)) == v,
{
}

/// Merging two bytes and splitting the value gives the bytes back.
pub proof fn lemma_split_merged(upper: u8, lower: u8)
    ensures
        spec_upper_byte(spec_merge(upper, lower)) == upper,
        spec_lower_byte(spec_merge(upper, lower)) == lower,
{
}

/// Picks the serve velocity for `total_time` from the table.
pub fn random_vel(total_time: usize) -> (result: (i16, i16))
    ensures
        result == spec_random_vel(total_time),
{
    let velocities: [(i16, i16); 16] = [
        (-3, -3),
        (-3, 3),
        (3, -3),
        (-3, 3),
        (-4, -2),
        (-4, 2),
        (4, -2),
        (-4, 2),
        (-2, -4),
        (-2, 4),
        (2, -4),
        (-2, 4),
        (-3, -3),
        (-3, 3),
        (3, -3),
        (-3, 3),
    ];
    let ran: usize = total_time % 16;
    velocities[ran]
}

/// A record with one fixed-length binary encoding.
pub trait Serializable: Sized {
    /// The number of bytes of every encoding.
    spec fn spec_len() -> nat;

    /// The encoding of a record.
    spec fn spec_serialize(&self) -> Seq<u8>;

    /// The record that the first `spec_len()` bytes of `input` encode.
    spec fn spec_deserialize(input: Seq<u8>) -> Self;

    /// The byte strings that encode a record.
    spec fn spec_is_encoding(input: Seq<u8>) -> bool;

    /// An encoding has the fixed length, and decoding it gives the record back.
    proof fn lemma_round_trip(&self)
        ensures
            self.spec_serialize().len() == Self::spec_len(),
            Self::spec_is_encoding(self.spec_serialize()),
            Self::spec_deserialize(self.spec_serialize()) == *self,
    ;

    /// Encoding the record that an encoding decodes to gives the same bytes
    /// back: no two encodings stand for one record.
    proof fn lemma_round_trip_bytes(input: Seq<u8>)
        requires
            Self::spec_is_encoding(input),
        ensures
            input.len() == Self::spec_len(),
            Self::spec_deserialize(input).spec_serialize() == input,
    ;

    fn serialize(&self) -> (result: Vec<u8>)
        ensures
            result@ == self.spec_serialize(),
    ;

    fn deserialize(input: &[u8]) -> (result: Self)
        requires
            input@.len() >= Self::spec_len(),
        ensures
            result == Self::spec_deserialize(input@),
    ;

    fn len() -> (result: usize)
        ensures
            result == Self::spec_len(),
    ;
}

impl Serializable for RacketPacket {
    open spec fn spec_len() -> nat {
        4
    }

    open spec fn spec_serialize(&self) -> Seq<u8> {
        seq![
            spec_upper_byte(self.x),
            spec_lower_byte(self.x),
            spec_upper_byte(self.y),
            spec_lower_byte(self.y),
        ]
    }

    open spec fn spec_deserialize(input: Seq<u8>) -> RacketPacket {
        RacketPacket { x: spec_merge(input[0], input[1]), y: spec_merge(input[2], input[3]) }
    }

    proof fn lemma_round_trip(&self) {
        lemma_merge_bytes(self.x);
        lemma_merge_bytes(self.y);
    }

    open spec fn spec_is_encoding(input: Seq<u8>) -> bool {
        input.len() == 4
    }

    proof fn lemma_round_trip_bytes(input: Seq<u8>) {
        lemma_split_merged(input[0], input[1]);
        lemma_split_merged(input[2], input[3]);
        assert(RacketPacket::spec_deserialize(input).spec_serialize() =~= input);
    }

    fn serialize(&self) -> (result: Vec<u8>) {
        let mut result = Vec::new();
        result.push(upper_byte(self.x));
        result.push(lower_byte(self.x));
        result.push(upper_byte(self.y));
        result.push(lower_byte(self.y));
        assert(result@ =~= self.spec_serialize());
        result
    }

    fn deserialize(input: &[u8]) -> (result: RacketPacket) {
        RacketPacket { x: merge(input[0], input[1]), y: merge(input[2], input[3]) }
    }

    fn len() -> (result: usize) {
        4
    }
}

impl Serializable for BallPacket {
    open spec fn spec_len() -> nat {
        8
    }

    open spec fn spec_serialize(&self) -> Seq<u8> {
        seq![
            spec_upper_byte(self.x),
            spec_lower_byte(self.x),
            spec_upper_byte(self.y),
            spec_lower_byte(self.y),
            spec_upper_byte(self.x_vel),
            spec_lower_byte(self.x_vel),
            spec_upper_byte(self.y_vel),
            spec_lower_byte(self.y_vel),
        ]
    }

    open spec fn spec_deserialize(input: Seq<u8>) -> BallPacket {
        BallPacket {
            x: spec_merge(input[0], input[1]),
            y: spec_merge(input[2], input[3]),
            x_vel: spec_merge(input[4], input[5]),
            y_vel: spec_merge(input[6], input[7]),
        }
    }

    proof fn lemma_round_trip(&self) {
        lemma_merge_bytes(self.x);
        lemma_merge_bytes(self.y);
        lemma_merge_bytes(self.x_vel);
        lemma_merge_bytes(self.y_vel);
    }

    open spec fn spec_is_encoding(input: Seq<u8>) -> bool {
        input.len() == 8
    }

    proof fn lemma_round_trip_bytes(input: Seq<u8>) {
        lemma_split_merged(input[0], input[1]);
        lemma_split_merged(input[2], input[3]);
        lemma_split_merged(input[4], input[5]);
        lemma_split_merged(input[6], input[7]);
        assert(BallPacket::spec_deserialize(input).spec_serialize() =~= input);
    }

    fn serialize(&self) -> (result: Vec<u8>) {
        let mut result = Vec::new();
        result.push(upper_byte(self.x));
        result.push(lower_byte(self.x));
        result.push(upper_byte(self.y));
        result.push(lower_byte(self.y));
        result.push(upper_byte(self.x_vel));
        result.push(lower_byte(self.x_vel));
        result.push(upper_byte(self.y_vel));
        result.push(lower_byte(self.y_vel));
        assert(result@ =~= self.spec_serialize());
        result
    }

    fn deserialize(input: &[u8]) -> (result: BallPacket) {
        BallPacket {
            x: merge(input[0], input[1]),
            y: merge(input[2], input[3]),
            x_vel: merge(input[4], input[5]),
            y_vel: merge(input[6], input[7]),
        }
    }

    fn len() -> (result: usize) {
        8
    }
}

impl Serializable for InputPacket {
    open spec fn spec_len() -> nat {
        2
    }

    open spec fn spec_serialize(&self) -> Seq<u8> {
        seq![spec_upper_byte(self.goal_y), spec_lower_byte(self.goal_y)]
    }

    open spec fn spec_deserialize(input: Seq<u8>) -> InputPacket {
        InputPacket { goal_y: spec_merge(input[0], input[1]) }
    }

    proof fn lemma_round_trip(&self) {
        lemma_merge_bytes(self.goal_y);
    }

    open spec fn spec_is_encoding(input: Seq<u8>) -> bool {
        input.len() == 2
    }

    proof fn lemma_round_trip_bytes(input: Seq<u8>) {
        lemma_split_merged(input[0], input[1]);
        assert(InputPacket::spec_deserialize(input).spec_serialize() =~= input);
    }

    fn serialize(&self) -> (result: Vec<u8>) {
        let mut result = Vec::new();
        result.push(upper_byte(self.goal_y));
        result.push(lower_byte(self.goal_y));
        assert(result@ =~= self.spec_serialize());
        result
    }

    fn deserialize(input: &[u8]) -> (result: InputPacket) {
        InputPacket { goal_y: merge(input[0], input[1]) }
    }

    fn len() -> (result: usize) {
        2
    }
}

impl Serializable for WhoamiPacket {
    open spec fn spec_len() -> nat {
        1
    }

    /// `0xFF` for the host, `0x00` for the follower.
    open spec fn spec_serialize(&self) -> Seq<u8> {
        if self.is_server {
            seq![255u8]
        } else {
            seq![0u8]
        }
    }

    /// The host is announced by `0xFF`; every other byte means the follower.
    open spec fn spec_deserialize(input: Seq<u8>) -> WhoamiPacket {
        WhoamiPacket { is_server: input[0] == 255 }
    }

    proof fn lemma_round_trip(&self) {
    }

    open spec fn spec_is_encoding(input: Seq<u8>) -> bool {
        input.len() == 1 && (input[0] == 255 || input[0] == 0)
    }

    proof fn lemma_round_trip_bytes(input: Seq<u8>) {
        assert(WhoamiPacket::spec_deserialize(input).spec_serialize() =~= input);
    }

    fn serialize(&self) -> (result: Vec<u8>) {
        if self.is_server {
            vec![255]
        } else {
            vec![0]
        }
    }

    fn deserialize(input: &[u8]) -> (result: WhoamiPacket) {
        WhoamiPacket { is_server: input[0] == 255 }
    }

    fn len() -> (result: usize) {
        1
    }
}

impl Serializable for GamestatePacket {
    open spec fn spec_len() -> nat {
        19
    }

    /// Left paddle, right paddle, ball, the two scores, the state.
    open spec fn spec_serialize(&self) -> Seq<u8> {
        self.rackets[0].spec_serialize() + self.rackets[1].spec_serialize()
            + self.ball.spec_serialize() + seq![self.score[0], self.score[1], self.state]
    }

    open spec fn spec_deserialize(input: Seq<u8>) -> GamestatePacket {
        GamestatePacket {
            rackets: [
                RacketPacket::spec_deserialize(input.subrange(0, 4)),
                RacketPacket::spec_deserialize(input.subrange(4, 8)),
            ],
            ball: BallPacket::spec_deserialize(input.subrange(8, 16)),
            score: [input[16], input[17]],
            state: input[18],
        }
    }

    proof fn lemma_round_trip(&self) {
        let bytes = self.spec_serialize();
        self.rackets[0].lemma_round_trip();
        self.rackets[1].lemma_round_trip();
        self.ball.lemma_round_trip();
        assert(bytes.subrange(0, 4) =~= self.rackets[0].spec_serialize());
        assert(bytes.subrange(4, 8) =~= self.rackets[1].spec_serialize());
        assert(bytes.subrange(8, 16) =~= self.ball.spec_serialize());
        let decoded = GamestatePacket::spec_deserialize(bytes);
        assert(decoded.rackets =~= self.rackets);
        assert(decoded.score =~= self.score);
    }

    open spec fn spec_is_encoding(input: Seq<u8>) -> bool {
        input.len() == 19
    }

    proof fn lemma_round_trip_bytes(input: Seq<u8>) {
        RacketPacket::lemma_round_trip_bytes(input.subrange(0, 4));
        RacketPacket::lemma_round_trip_bytes(input.subrange(4, 8));
        BallPacket::lemma_round_trip_bytes(input.subrange(8, 16));
        assert(GamestatePacket::spec_deserialize(input).spec_serialize() =~= input);
    }

    fn serialize(&self) -> (result: Vec<u8>) {
        let mut result = Vec::new();
        let mut left = self.rackets[0].serialize();
        result.append(&mut left);
        let mut right = self.rackets[1].serialize();
        result.append(&mut right);
        let mut ball = self.ball.serialize();
        result.append(&mut ball);
        result.push(self.score[0]);
        result.push(self.score[1]);
        result.push(self.state);
        assert(result@ =~= self.spec_serialize());
        result
    }

    fn deserialize(input: &[u8]) -> (result: GamestatePacket) {
        let mut index: usize = 0;
        let racket1 = RacketPacket::deserialize(&input[index..index + RacketPacket::len()]);
        index += RacketPacket::len();
        let racket2 = RacketPacket::deserialize(&input[index..index + RacketPacket::len()]);
        index += RacketPacket::len();
        let ball = BallPacket::deserialize(&input[index..index + BallPacket::len()]);
        index += BallPacket::len();
        let score_player1 = input[index];
        let score_player2 = input[index + 1];
        let state = input[index + 2];

        GamestatePacket {
            rackets: [racket1, racket2],
            ball,
            score: [score_player1, score_player2],
            state: state,
        }
    }

    fn len() -> (result: usize) {
        2 * RacketPacket::len() + BallPacket::len() + 2 + 1
    }
}

} // verus!
