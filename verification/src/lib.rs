//! Simulation core of a side-scrolling platformer: geometry primitives, a
//! sprite-sheet lookup, the player-character state machine, obstacles
//! (barriers and platforms), and the world tick that ties them together.
//!
//! Asset loading, rendering and input polling are external collaborators;
//! this crate works on plain values and proves its behaviour with Verus.

pub mod boy;
pub mod geometry;
pub mod lifecycle;
pub mod obstacle;
pub mod sheet;
pub mod state_machine;
pub mod world;
