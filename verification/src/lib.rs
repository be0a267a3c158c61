//! Building blocks of a small 2D real-time loop: positions, a player with a
//! circular hit area, and the per-frame decisions of the loop itself.
//!
//! The loop opens a window, paints a shape in it and moves the shape by the
//! keys that are down, sixty times a second. Talking to the window system is
//! left to the program that runs the loop; what that program has to decide
//! in each frame is decided here, on plain values.

pub mod engine;
pub mod entity;
pub mod input;
pub mod player;
pub mod position;
pub mod shape;
pub mod sqrt;
pub mod timing;
