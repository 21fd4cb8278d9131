//! Camera-relative movement of a player, decided exactly.
//!
//! The library works on whole numbers. It reads the held keys, sums the camera's vectors
//! for them, and hands back the step to take as an exact pair: the horizontal direction
//! of travel and the distance to cover along it. Bringing that direction to unit length
//! takes a square root, so it is left to whoever applies the step; nothing here rounds.
pub mod vector;
pub mod keys;
pub mod orientation;
pub mod movement;
pub mod laws;
pub mod scene;
pub mod input;
