//! Two-paddle Pong: the wire codec, the physics tick, the host/follower
//! session logic and the drawing of the playing field, with machine-checked
//! contracts.

pub mod ball;
pub mod fps;
pub mod game;
pub mod graphics;
pub mod input;

pub mod lcd;
pub mod menu;

pub mod network;
pub mod physics;
pub mod racket;

use vstd::prelude::*;

verus! {

/// The colour index of the empty field.
pub const BGCOLOR: u8 = 0;

} // verus!
