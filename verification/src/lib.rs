//! The actor simulation of a 2D platformer: contact sensing, input
//! translation and the per-tick movement state machine, with every rule
//! stated as a contract and proved.
//!
//! The library holds no engine. It works on plain values: quantities are
//! fixed-point [`math::Scalar`]s that count thousandths, bodies and sensors
//! are known by [`physics::Entity`] numbers, and what the physics engine and
//! the input devices report comes in as the small records of [`physics`] and
//! [`actors::player::input`]. The host reads its components into these,
//! calls the system functions in the order that [`app::App`] lists, and
//! writes back what they decide.

pub mod actors;
pub mod app;
pub mod cache;
pub mod level;
pub mod math;
pub mod physics;
