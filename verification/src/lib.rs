//! Simulation core of a small top-down arcade game: a thief must carry a
//! USB stick to a computer, wait for a download to finish, and stay clear of
//! wandering police. The crate holds the game's logic — steering, drag,
//! boundary pull-back, bounding-box collision, the `InGame` / `GameOver`
//! state machine, progress and score tracking, and the popup command
//! effects — over fixed-point integer coordinates. Rendering, input reading
//! and window management are left to the caller, which feeds the simulation
//! plain values each frame.

pub mod fixed;
pub mod geom;
pub mod motion;
pub mod timer;
pub mod rng;
pub mod entities;
pub mod input;
pub mod popups;
pub mod world;
