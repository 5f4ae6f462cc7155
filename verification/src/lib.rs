//! Rules of a small mini-golf game.
//!
//! The game engine, the physics and the vector arithmetic live with the
//! program that embeds this crate. What is kept here are the decisions the
//! game takes each frame, stated over plain values: when loading gives way to
//! play, what a restart does to the ball, and what the left mouse button asks
//! for.

pub mod aim;
pub mod ball;
pub mod flow;

pub use crate::aim::{click, marker_steps, ClickPhase, POWER_SEGMENTS};
pub use crate::ball::{restart, RestartPlan};
pub use crate::flow::{check_load_assets, AppState, LoadCheck, LoadStatus};
