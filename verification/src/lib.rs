//! Combat resolution and state-synchronization core of a fixed-tick arcade
//! shooter.
//!
//! The library models positions and sizes as integers in tenths of a pixel,
//! so that every velocity and threshold of the game is exact; hit points and
//! damage are plain integers.  Rendering, input plumbing and the sockets
//! themselves live outside the library and exchange plain values with it.

pub mod catalog;
pub mod codec;
pub mod combat;
pub mod entity;
pub mod geom;
pub mod modes;
pub mod rng;
pub mod session;
pub mod sim;
pub mod vs;
