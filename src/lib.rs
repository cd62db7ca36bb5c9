//! A single-player treasure hunt on a rectangular grid: a hidden target cell,
//! a player token that moves a bounded Chebyshev distance per turn, and a
//! search action that reveals how far away the target lies.

pub mod board;
pub mod color;
pub mod grid;
pub mod menu;
pub mod parser;
pub mod player;
pub mod point;
pub mod random;
pub mod text;
