//! Core logic of a small top-down game: the non-player-character (NPC)
//! conversational state machine, the dialogue transcript it maintains, and
//! the pure compute kernels behind sprite animation, spell sequencing and
//! terrain enumeration. Rendering, input and the network-backed completion
//! service live outside this crate and talk to it through plain values.

pub mod agent;
pub mod entity;
pub mod generator;
pub mod npc;
pub mod spell;
pub mod terrain;
