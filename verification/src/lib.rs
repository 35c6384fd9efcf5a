//! Single-entity directional movement and timed sprite-sheet animation.
//!
//! The library holds the state and the rules of a small top-down character:
//! which directional keys are held ([`input::Direction`]), where the entity
//! stands ([`motion::Position`]), and how far its walk cycle has advanced
//! ([`animation::AnimationState`]). A host event loop feeds key transitions
//! and a millisecond clock in, and reads a [`player::DrawRequest`] back out
//! once per frame; rendering itself is the host's job.
//!
//! Positions and speeds are whole world units; the frame fraction of the
//! walk cycle is carried as the exact pair `frame_index / total_frames`
//! rather than as an inexact scalar.

pub mod animation;
pub mod input;
pub mod motion;
pub mod player;
