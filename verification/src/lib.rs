//! Translates raw input events (keyboard keys, gamepad buttons, gamepad
//! analog axes) into a set of discrete gameplay actions (rotate-left,
//! rotate-right, boost, shoot), read once per simulation tick by a game loop.
//! An auto-pilot mode synthesizes the actions from elapsed time instead of
//! device input.
//!
//! Axis positions are given in thousandths of full deflection (`-1000` to
//! `1000` for a stick that reports `-1.0` to `1.0`); elapsed time is given in
//! microseconds. Adapters around event sources that report floating-point
//! values convert at the boundary.

pub mod input;
pub mod laws;
