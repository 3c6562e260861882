//! A deterministic two-dimensional shooter for rollback netcode.
//!
//! Every quantity that influences a later frame is an integer: positions are
//! fixed-point, timers count frames. One frame of the simulation is a total
//! function of the world and of the players' inputs, so peers that feed it the
//! same inputs hold the same world, and a rewound world replays to the state
//! that a straight run would have reached.
//!
//! The network session stays outside: it decides which frame to save, to
//! rewind to and to simulate, and the `timeline` does it.

pub mod entity;
pub mod input;
pub mod replay;
pub mod rollback;
pub mod session;
pub mod snapshot;
pub mod space;
pub mod theorems;
pub mod timeline;
pub mod world;
