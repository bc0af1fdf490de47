//! Core logic of a hotkey-driven window mover: a key chord (super + shift +
//! an arrow key) relocates the focused top-level window to the display left
//! or right of its current one, keeping the window's size and its offset from
//! the display origin.
//!
//! Everything here works on plain snapshot values (rectangles, style bits,
//! key states) captured from the operating system by the surrounding program;
//! the queries and mutations themselves live outside this crate.

pub mod chord;
pub mod eligibility;
pub mod geometry;
pub mod hook;
pub mod icon;
pub mod relocate;
pub mod topology;
