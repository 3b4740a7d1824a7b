//! Snake on a wrapping play field.
//!
//! The crate holds the rules of the game and nothing that touches a screen, a
//! keyboard, a clock or a socket: every function here works on plain values.
//! The program around it samples the keyboard and the clock once per tick,
//! hands the snapshot in, and carries out the list of actions that comes back.
//!
//! Positions and strides are fixed-point numbers, counted in subpixels
//! ([`sprite::SUBPIXELS`] to the pixel); sizes and field bounds are whole
//! pixels. Times are nanoseconds on a monotonic clock.

pub mod dice;
pub mod food;
pub mod game;
pub mod remote;
pub mod session;
pub mod snake;
pub mod sprite;
