//! Core of a frame-synchronized snake game: body representation, movement
//! with wrap-around, self-collision detection, fruit placement by rejection
//! sampling, growth on consumption, and input-driven directional locking
//! synchronized to a fixed frame divisor. Display, timing and input hardware
//! are collaborators outside this crate; the game state machine here works on
//! plain values they hand in.

pub mod coord;
pub mod rng;
pub mod snake;
pub mod fruit;
pub mod game;
