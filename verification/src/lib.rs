//! Verified gameplay math for a tumbleweed-like decorative creature
//! ("topplegrass") and an ambient wind resource.
//!
//! All quantities are fixed-point integers in millionths of a world unit
//! (lengths), millionths of a unit per second (velocities), microseconds
//! (durations) and microradians (angles), so that every per-frame rule can be
//! stated and proved exactly. The host engine's entity storage, event
//! channels and scheduler stay outside; this crate holds the per-tick rules
//! they drive.

pub mod components;
pub mod fixed;
pub mod resources;
mod rng;
pub mod topplegrass;
pub mod vectors;
pub mod wind_control;
