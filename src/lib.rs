//! A terminal aquarium: fish, sharks and bubbles on a character grid.
//!
//! Positions and speeds are fixed-point numbers in hundredths of a cell, so
//! the whole simulation is exact integer arithmetic.
pub mod chance;
pub mod sprite;
pub mod motion;
pub mod fish;
pub mod shark;
pub mod bubble;
pub mod tank;
pub mod control;
pub mod render;
