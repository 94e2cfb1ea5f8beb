//! Per-tick control logic of a single on-screen character.
//!
//! Every tick the caller samples the input devices, hands the sample to the
//! functions of this crate and carries out what they return: the unit steps to
//! add to the character's coordinates, the entity whose transform follows them,
//! and the animation clip to start. The behaviour state, its edge detection and
//! the one-shot start of the first clip are decided here.

pub mod state;
pub mod catalog;
pub mod animation;
pub mod input;
pub mod player;
pub mod movement;
pub mod tick;
pub mod devices;
