//! The core of a real-time entity simulation, with every function verified.
//!
//! The core keeps what is discrete about a tick: which entities exist and
//! are alive, which pairs of them share a grid cell, how many particles the
//! pool holds and how long they live, what the steering agents have decided,
//! which keys are held, and how much quality the frame rate leaves room for.
//! Time is counted in whole microseconds. Positions and velocities are the
//! host's: it advances them between the two halves of a frame, by the step
//! and under the plan that `state::WebGameState::update` hands out.

pub mod ai;
pub mod browser;
pub mod collision;
pub mod entity;
pub mod governor;
pub mod input;
pub mod names;
pub mod particles;
pub mod state;
pub mod store;
